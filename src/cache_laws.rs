use vstd::prelude::*;

use crate::tile::{fresh_tile, Coord, TileState, TileView};
use crate::tile_manager::{ingested, loaded_batch, looked_up};

verus! {

/// How many fetches of a batch brought bytes back.
pub open spec fn num_succeeded(fetched: Seq<Option<Vec<u8>>>) -> nat
    decreases fetched.len(),
{
    if fetched.len() == 0 {
        0
    } else {
        num_succeeded(fetched.drop_last()) + if fetched.last() is Some {
            1nat
        } else {
            0nat
        }
    }
}

/// A coordinate that was never seen is looked up as a fresh record, not loaded and with no
/// image; the lookup keeps that record, and a second lookup returns the same record and
/// leaves the cache as it was.
pub proof fn lemma_lookup_creates_once(m: Map<Coord, TileView>, c: Coord)
    requires
        !m.contains_key(c),
    ensures
        looked_up(m, c) == fresh_tile(c),
        looked_up(m, c).state == TileState::NotLoaded,
        looked_up(m, c).image.len() == 0,
        looked_up(m.insert(c, looked_up(m, c)), c) == looked_up(m, c),
        m.insert(c, looked_up(m, c)).insert(c, looked_up(m.insert(c, looked_up(m, c)), c))
            == m.insert(c, looked_up(m, c)),
{
    let m2 = m.insert(c, looked_up(m, c));
    assert(m2.insert(c, looked_up(m2, c)) =~= m2);
}

/// After a record is ingested, a lookup of its coordinate finds it loaded, with the record's
/// image, whatever state the record carried.
pub proof fn lemma_ingest_then_lookup(m: Map<Coord, TileView>, r: TileView)
    ensures
        looked_up(ingested(m, seq![r]), r.target_url) == (TileView {
            target_url: r.target_url,
            image: r.image,
            state: TileState::Loaded,
        }),
{
    assert(seq![r].drop_last() =~= Seq::<TileView>::empty());
}

/// Every record that a batch yields belongs to a coordinate of the batch.
pub proof fn lemma_batch_within_snapshot(coords: Seq<Coord>, fetched: Seq<Option<Vec<u8>>>)
    requires
        fetched.len() == coords.len(),
    ensures
        forall|i: int|
            0 <= i < loaded_batch(coords, fetched).len() ==> coords.contains(
                #[trigger] loaded_batch(coords, fetched)[i].target_url,
            ),
    decreases coords.len(),
{
    if coords.len() > 0 {
        let prev_c = coords.drop_last();
        let prev_f = fetched.drop_last();
        lemma_batch_within_snapshot(prev_c, prev_f);
        let b = loaded_batch(coords, fetched);
        let p = loaded_batch(prev_c, prev_f);
        assert forall|i: int| 0 <= i < b.len() implies coords.contains(
            #[trigger] b[i].target_url,
        ) by {
            if i < p.len() {
                assert(b[i] == p[i]);
                let j = choose|j: int| 0 <= j < prev_c.len() && prev_c[j] == p[i].target_url;
                assert(coords[j] == prev_c[j]);
            } else {
                assert(b[i].target_url == coords[coords.len() - 1]);
            }
        }
    }
}

/// A batch yields one record for each fetch that succeeded, and none for a coordinate whose
/// every fetch failed.
pub proof fn lemma_batch_keeps_successes(
    coords: Seq<Coord>,
    fetched: Seq<Option<Vec<u8>>>,
    c: Coord,
)
    requires
        fetched.len() == coords.len(),
        forall|i: int| 0 <= i < coords.len() && coords[i] == c ==> fetched[i] is None,
    ensures
        loaded_batch(coords, fetched).len() == num_succeeded(fetched),
        forall|i: int|
            0 <= i < loaded_batch(coords, fetched).len() ==> (#[trigger] loaded_batch(
                coords,
                fetched,
            )[i]).target_url != c,
    decreases coords.len(),
{
    if coords.len() > 0 {
        let prev_c = coords.drop_last();
        let prev_f = fetched.drop_last();
        assert forall|i: int| 0 <= i < prev_c.len() && prev_c[i] == c implies prev_f[i] is None by {
            assert(coords[i] == prev_c[i]);
        }
        lemma_batch_keeps_successes(prev_c, prev_f, c);
        let b = loaded_batch(coords, fetched);
        let p = loaded_batch(prev_c, prev_f);
        assert forall|i: int| 0 <= i < b.len() implies (#[trigger] b[i]).target_url != c by {
            if i < p.len() {
                assert(b[i] == p[i]);
            }
        }
    }
}

/// Ingesting records none of which belongs to `c` leaves the cache entry of `c` as it was.
pub proof fn lemma_ingest_leaves_others(m: Map<Coord, TileView>, s: Seq<TileView>, c: Coord)
    requires
        forall|i: int| 0 <= i < s.len() ==> (#[trigger] s[i]).target_url != c,
    ensures
        ingested(m, s).contains_key(c) == m.contains_key(c),
        looked_up(ingested(m, s), c) == looked_up(m, c),
    decreases s.len(),
{
    if s.len() > 0 {
        let prev = s.drop_last();
        assert forall|i: int| 0 <= i < prev.len() implies (#[trigger] prev[i]).target_url != c by {
            assert(s[i] == prev[i]);
        }
        lemma_ingest_leaves_others(m, prev, c);
        assert(s[s.len() - 1].target_url != c);
    }
}

/// When every fetch of `c` in a batch fails, the batch yields exactly the records of the
/// fetches that succeeded, none of them for `c`, and ingesting them leaves the entry of `c`
/// as it was before the batch.
pub proof fn lemma_failed_fetch_leaves_entry(
    m: Map<Coord, TileView>,
    coords: Seq<Coord>,
    fetched: Seq<Option<Vec<u8>>>,
    c: Coord,
)
    requires
        fetched.len() == coords.len(),
        forall|i: int| 0 <= i < coords.len() && coords[i] == c ==> fetched[i] is None,
    ensures
        loaded_batch(coords, fetched).len() == num_succeeded(fetched),
        forall|i: int|
            0 <= i < loaded_batch(coords, fetched).len() ==> (#[trigger] loaded_batch(
                coords,
                fetched,
            )[i]).target_url != c,
        ingested(m, loaded_batch(coords, fetched)).contains_key(c) == m.contains_key(c),
        looked_up(ingested(m, loaded_batch(coords, fetched)), c) == looked_up(m, c),
{
    lemma_batch_keeps_successes(coords, fetched, c);
    lemma_ingest_leaves_others(m, loaded_batch(coords, fetched), c);
}

/// An empty batch yields no records.
pub proof fn lemma_empty_batch(fetched: Seq<Option<Vec<u8>>>)
    requires
        fetched.len() == 0,
    ensures
        loaded_batch(Seq::empty(), fetched) == Seq::<TileView>::empty(),
{
}

} // verus!
