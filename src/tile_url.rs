use vstd::prelude::*;

use crate::tile::Coord;

verus! {

/// The tile server that the viewer fetches from.
pub const TILE_SERVER: &'static str = "https://stamen-tiles.a.ssl.fastly.net/terrain";

/// The character of one decimal digit.
pub open spec fn digit_char(d: nat) -> char
    recommends
        d < 10,
{
    ((48 + d) as u8) as char
}

/// The decimal writing of `n`, with no leading zeros.
pub open spec fn decimal(n: nat) -> Seq<char>
    decreases n,
{
    if n < 10 {
        seq![digit_char(n)]
    } else {
        decimal(n / 10).push(digit_char(n % 10))
    }
}

/// The address of the image of tile `c` on `server`: `<server>/<zoom>/<x>/<y>.png`.
pub open spec fn url_of(server: Seq<char>, c: Coord) -> Seq<char> {
    server + seq!['/'] + decimal(c.2 as nat) + seq!['/'] + decimal(c.0 as nat) + seq!['/']
        + decimal(c.1 as nat) + seq!['.', 'p', 'n', 'g']
}

fn push_decimal(out: &mut Vec<char>, n: u32)
    ensures
        final(out)@ == old(out)@ + decimal(n as nat),
    decreases n,
{
    if n >= 10 {
        push_decimal(out, n / 10);
    }
    let d: u8 = (n % 10) as u8;
    out.push((48u8 + d) as char);
    assert(final(out)@ =~= old(out)@ + decimal(n as nat));
}

fn push_str(out: &mut Vec<char>, s: &str)
    ensures
        final(out)@ == old(out)@ + s@,
{
    let n = s.unicode_len();
    let mut i: usize = 0;
    while i < n
        invariant
            n == s@.len(),
            i <= n,
            out@ == old(out)@ + s@.take(i as int),
        decreases n - i,
    {
        out.push(s.get_char(i));
        assert(s@.take(i + 1) =~= s@.take(i as int).push(s@[i as int]));
        i = i + 1;
    }
    assert(s@.take(n as int) =~= s@);
}

/// Relies on `String`'s `FromIterator<char>`: the string holds the characters in order.
#[verifier::external_body]
fn string_from_chars(chars: &Vec<char>) -> (r: String)
    ensures
        r@ == chars@,
{
    chars.iter().collect()
}

/// The address of the image of tile `coords` on `server`.
pub fn tile_url(server: &str, coords: &Coord) -> (r: String)
    ensures
        r@ == url_of(server@, *coords),
{
    let (x, y, z) = *coords;
    let mut out: Vec<char> = Vec::new();
    push_str(&mut out, server);
    out.push('/');
    push_decimal(&mut out, z);
    out.push('/');
    push_decimal(&mut out, x);
    out.push('/');
    push_decimal(&mut out, y);
    out.push('.');
    out.push('p');
    out.push('n');
    out.push('g');
    assert(out@ =~= url_of(server@, *coords));
    string_from_chars(&out)
}

/// The requests that fetch a batch: one address for each coordinate, in batch order.
pub fn request_urls(server: &str, load_coords: &Vec<Coord>) -> (r: Vec<String>)
    ensures
        r.len() == load_coords.len(),
        forall|i: int| 0 <= i < r.len() ==> #[trigger] r[i]@ == url_of(server@, load_coords[i]),
{
    let mut r: Vec<String> = Vec::new();
    let mut i: usize = 0;
    while i < load_coords.len()
        invariant
            i <= load_coords.len(),
            r.len() == i,
            forall|j: int| 0 <= j < i ==> #[trigger] r[j]@ == url_of(server@, load_coords[j]),
        decreases load_coords.len() - i,
    {
        r.push(tile_url(server, &load_coords[i]));
        i = i + 1;
    }
    r
}

} // verus!
