use vstd::prelude::*;

use crate::tile::{fresh_tile, Coord, Tile, TileState, TileView};
use std::collections::HashMap;

verus! {

broadcast use vstd::std_specs::hash::group_hash_axioms;

/// The integer under which the cache files a coordinate: zoom, y and x side by side.
pub open spec fn key_of(c: Coord) -> u128 {
    ((c.2 as u128) << 64u128) | ((c.1 as u128) << 32u128) | (c.0 as u128)
}

proof fn lemma_key_of_injective(a: Coord, b: Coord)
    ensures
        key_of(a) == key_of(b) ==> a == b,
{
    let (ax, ay, az) = a;
    let (bx, by, bz) = b;
    assert(((((az as u128) << 64u128) | ((ay as u128) << 32u128) | (ax as u128)) & 0xffff_ffffu128)
        == ax as u128) by (bit_vector);
    assert(((((bz as u128) << 64u128) | ((by as u128) << 32u128) | (bx as u128)) & 0xffff_ffffu128)
        == bx as u128) by (bit_vector);
    assert((((((az as u128) << 64u128) | ((ay as u128) << 32u128) | (ax as u128)) >> 32u128)
        & 0xffff_ffffu128) == ay as u128) by (bit_vector);
    assert((((((bz as u128) << 64u128) | ((by as u128) << 32u128) | (bx as u128)) >> 32u128)
        & 0xffff_ffffu128) == by as u128) by (bit_vector);
    assert(((((az as u128) << 64u128) | ((ay as u128) << 32u128) | (ax as u128)) >> 64u128)
        == az as u128) by (bit_vector);
    assert(((((bz as u128) << 64u128) | ((by as u128) << 32u128) | (bx as u128)) >> 64u128)
        == bz as u128) by (bit_vector);
}

fn pack_key(c: &Coord) -> (r: u128)
    ensures
        r == key_of(*c),
{
    ((c.2 as u128) << 64u128) | ((c.1 as u128) << 32u128) | (c.0 as u128)
}

/// What a lookup of `c` hands back: the cached record, or a fresh one.
pub open spec fn looked_up(m: Map<Coord, TileView>, c: Coord) -> TileView {
    if m.contains_key(c) {
        m[c]
    } else {
        fresh_tile(c)
    }
}

/// A fetched record as the cache keeps it: the same, with its state set to loaded.
pub open spec fn as_loaded(t: TileView) -> TileView {
    TileView { state: TileState::Loaded, ..t }
}

/// The cache after the records of `s` were written in order, each over what stood at its
/// coordinate.
pub open spec fn ingested(m: Map<Coord, TileView>, s: Seq<TileView>) -> Map<Coord, TileView>
    decreases s.len(),
{
    if s.len() == 0 {
        m
    } else {
        ingested(m, s.drop_last()).insert(s.last().target_url, as_loaded(s.last()))
    }
}

/// A cache entry as the manager keeps it: filed under its own coordinate, and either loaded
/// or not yet fetched with no image.
pub open spec fn entry_ok(c: Coord, t: TileView) -> bool {
    &&& t.target_url == c
    &&& (t.state == TileState::Loaded || (t.state == TileState::NotLoaded && t.image.len() == 0))
}

/// Every entry of a cache is as the manager keeps it.
pub open spec fn cache_ok(m: Map<Coord, TileView>) -> bool {
    forall|c: Coord| #[trigger] m.contains_key(c) ==> entry_ok(c, m[c])
}

/// What one fetch contributes to a batch: the loaded record when bytes came back, nothing
/// when the fetch failed.
pub open spec fn fetched_tile(c: Coord, fetched: Option<Vec<u8>>) -> Seq<TileView> {
    match fetched {
        Some(bytes) => seq![TileView { target_url: c, image: bytes@, state: TileState::Loaded }],
        None => Seq::empty(),
    }
}

/// The records that a batch yields: one for each coordinate whose fetch succeeded, in the
/// order of the batch.
pub open spec fn loaded_batch(coords: Seq<Coord>, fetched: Seq<Option<Vec<u8>>>) -> Seq<TileView>
    decreases coords.len(),
{
    if coords.len() == 0 {
        Seq::empty()
    } else {
        loaded_batch(coords.drop_last(), fetched.drop_last()) + fetched_tile(
            coords.last(),
            fetched.last(),
        )
    }
}

/// Owns the tile cache and the queue of coordinates waiting to be fetched.
pub struct TileManager {
    tile_dict: HashMap<u128, Tile>,
    load_queue: Vec<Coord>,
}

impl Default for TileManager {
    fn default() -> (r: Self)
        ensures
            r.tiles() == Map::<Coord, TileView>::empty(),
            r.queue() == Seq::<Coord>::empty(),
            r.wf(),
    {
        TileManager::new()
    }
}

impl TileManager {
    /// The cache, by coordinate.
    pub closed spec fn tiles(&self) -> Map<Coord, TileView> {
        Map::new(
            |c: Coord| self.tile_dict@.contains_key(key_of(c)),
            |c: Coord| self.tile_dict@[key_of(c)]@,
        )
    }

    /// The coordinates waiting to be fetched, oldest first.
    pub closed spec fn queue(&self) -> Seq<Coord> {
        self.load_queue@
    }

    pub open spec fn wf(&self) -> bool {
        cache_ok(self.tiles())
    }

    proof fn lemma_insert(old_dict: Map<u128, Tile>, new_dict: Map<u128, Tile>, c: Coord, t: Tile)
        requires
            new_dict == old_dict.insert(key_of(c), t),
        ensures
            Map::new(
                |d: Coord| new_dict.contains_key(key_of(d)),
                |d: Coord| new_dict[key_of(d)]@,
            ) =~= Map::new(
                |d: Coord| old_dict.contains_key(key_of(d)),
                |d: Coord| old_dict[key_of(d)]@,
            ).insert(c, t@),
    {
        assert forall|d: Coord| key_of(d) == key_of(c) implies d == c by {
            lemma_key_of_injective(d, c);
        }
    }

    pub fn new() -> (r: Self)
        ensures
            r.tiles() == Map::<Coord, TileView>::empty(),
            r.queue() == Seq::<Coord>::empty(),
            r.wf(),
    {
        let r = TileManager { tile_dict: HashMap::new(), load_queue: Vec::new() };
        assert(r.tiles() =~= Map::<Coord, TileView>::empty());
        r
    }

    /// The record at `coords`; one that was never seen is created as not loaded and kept.
    pub fn get_tile(&mut self, coords: &Coord) -> (r: Tile)
        requires
            old(self).wf(),
        ensures
            r@ == looked_up(old(self).tiles(), *coords),
            final(self).tiles() == old(self).tiles().insert(*coords, r@),
            final(self).queue() == old(self).queue(),
            final(self).wf(),
    {
        let key = pack_key(coords);
        match self.tile_dict.get(&key) {
            Some(tile) => {
                let r = tile.clone();
                assert(self.tiles().contains_key(*coords));
                assert(self.tiles().insert(*coords, r@) =~= self.tiles());
                r
            },
            None => {
                let new_tile = Tile::new(coords);
                let stored = new_tile.clone();
                let ghost old_dict = self.tile_dict@;
                self.tile_dict.insert(key, stored);
                proof {
                    Self::lemma_insert(old_dict, self.tile_dict@, *coords, stored);
                }
                new_tile
            },
        }
    }

    /// Appends `coords` to the load queue, whatever the queue or the cache already hold.
    pub fn queue_tile_load(&mut self, coords: Coord)
        ensures
            final(self).queue() == old(self).queue().push(coords),
            final(self).tiles() == old(self).tiles(),
    {
        self.load_queue.push(coords);
    }

    /// Writes each record into the cache as loaded, over what stood at its coordinate.
    pub fn ingest_loaded_tiles(&mut self, new_tiles: Vec<Tile>)
        requires
            old(self).wf(),
        ensures
            final(self).tiles() == ingested(old(self).tiles(), new_tiles@.map_values(|t: Tile| t@)),
            final(self).queue() == old(self).queue(),
            final(self).wf(),
    {
        let ghost start = self.tiles();
        let ghost views = new_tiles@.map_values(|t: Tile| t@);
        let mut i: usize = 0;
        while i < new_tiles.len()
            invariant
                i <= new_tiles.len(),
                views == new_tiles@.map_values(|t: Tile| t@),
                self.tiles() == ingested(start, views.take(i as int)),
                self.queue() == old(self).queue(),
                self.wf(),
            decreases new_tiles.len() - i,
        {
            let mut tile = new_tiles[i].clone();
            tile.state = TileState::Loaded;
            let key = pack_key(&tile.target_url);
            let ghost old_dict = self.tile_dict@;
            assert(views.take(i + 1).drop_last() =~= views.take(i as int));
            self.tile_dict.insert(key, tile);
            proof {
                Self::lemma_insert(old_dict, self.tile_dict@, tile.target_url, tile);
            }
            i = i + 1;
        }
        assert(views.take(views.len() as int) =~= views);
    }

    /// Empties the load queue and hands back what it held: the batch to be fetched.
    pub fn generate_async_load(&mut self) -> (r: Vec<Coord>)
        ensures
            r@ == old(self).queue(),
            final(self).queue() == Seq::<Coord>::empty(),
            final(self).tiles() == old(self).tiles(),
    {
        let mut load_queue: Vec<Coord> = Vec::new();
        std::mem::swap(&mut load_queue, &mut self.load_queue);
        load_queue
    }
    /// The outcome of fetching one tile: on success the record with the fetched bytes, marked
    /// loaded; on failure nothing.
    pub fn load_tile(request_tile: Tile, fetched: Option<Vec<u8>>) -> (r: Option<Tile>)
        ensures
            match fetched {
                Some(bytes) => r matches Some(t) && t@ == (TileView {
                    target_url: request_tile.target_url,
                    image: bytes@,
                    state: TileState::Loaded,
                }),
                None => r is None,
            },
    {
        match fetched {
            Some(bytes) => {
                let mut tile = request_tile;
                tile.image = bytes;
                tile.state = TileState::Loaded;
                Some(tile)
            },
            None => None,
        }
    }

    /// Joins a batch with the outcome of each fetch, the `i`-th outcome for the `i`-th
    /// coordinate: the records of the fetches that succeeded, in batch order.
    pub fn load_tiles(load_coords: Vec<Coord>, fetched: Vec<Option<Vec<u8>>>) -> (r: Option<
        Vec<Tile>,
    >)
        requires
            fetched.len() == load_coords.len(),
        ensures
            r matches Some(tiles) && tiles@.map_values(|t: Tile| t@) == loaded_batch(
                load_coords@,
                fetched@,
            ),
    {
        let mut return_tiles: Vec<Tile> = Vec::new();
        let mut i: usize = 0;
        while i < load_coords.len()
            invariant
                i <= load_coords.len(),
                fetched.len() == load_coords.len(),
                return_tiles@.map_values(|t: Tile| t@) == loaded_batch(
                    load_coords@.take(i as int),
                    fetched@.take(i as int),
                ),
            decreases load_coords.len() - i,
        {
            let request_tile = Tile::new(&load_coords[i]);
            let outcome = match &fetched[i] {
                Some(bytes) => Some(bytes.clone()),
                None => None,
            };
            let ghost before = return_tiles@;
            if let Some(tile) = TileManager::load_tile(request_tile, outcome) {
                return_tiles.push(tile);
            }
            assert(load_coords@.take(i + 1).drop_last() =~= load_coords@.take(i as int));
            assert(fetched@.take(i + 1).drop_last() =~= fetched@.take(i as int));
            assert(return_tiles@.map_values(|t: Tile| t@) =~= loaded_batch(
                load_coords@.take(i + 1),
                fetched@.take(i + 1),
            ));
            i = i + 1;
        }
        assert(load_coords@.take(load_coords.len() as int) =~= load_coords@);
        assert(fetched@.take(fetched.len() as int) =~= fetched@);
        Some(return_tiles)
    }
}

} // verus!
