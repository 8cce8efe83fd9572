use vstd::prelude::*;

use crate::tile::{Coord, Tile, TileState, TileView};
use crate::tile_manager::{looked_up, TileManager};

verus! {

/// Tiles per side of the square of tiles kept around the view's center.
pub const LOAD_TILE_DIMENSION: usize = 5;

/// The tile of grid cell (`gx`, `gy`) around `center` at `zoom`: the cell in the middle of
/// the grid is the center tile. Only tiles with both indices positive are fetched.
pub open spec fn cell_coord(center: (i64, i64), zoom: u32, gx: int, gy: int) -> Option<Coord> {
    let tx = center.0 + gx - 2;
    let ty = center.1 + gy - 2;
    if 0 < tx <= u32::MAX && 0 < ty <= u32::MAX {
        Some((tx as u32, ty as u32, zoom))
    } else {
        None
    }
}

/// Whether tile `c` lies in the grid around `center` at `zoom`.
pub open spec fn in_view(center: (i64, i64), zoom: u32, c: Coord) -> bool {
    &&& c.2 == zoom
    &&& c.0 > 0
    &&& c.1 > 0
    &&& center.0 - 2 <= c.0 <= center.0 + 2
    &&& center.1 - 2 <= c.1 <= center.1 + 2
}

/// Whether tile `c` of the grid comes before cell (`gx`, `gy`), row by row.
pub open spec fn seen_before(center: (i64, i64), zoom: u32, c: Coord, gx: int, gy: int) -> bool {
    &&& in_view(center, zoom, c)
    &&& (c.0 - center.0 + 2 < gx || (c.0 - center.0 + 2 == gx && c.1 - center.1 + 2 < gy))
}

/// The coordinates that the first `n` cells of row `gx` queue, given the cache `m` as it
/// was before: those whose record is not loaded.
pub open spec fn row_queue(
    m: Map<Coord, TileView>,
    center: (i64, i64),
    zoom: u32,
    gx: int,
    n: int,
) -> Seq<Coord>
    decreases n,
{
    if n <= 0 {
        Seq::empty()
    } else {
        row_queue(m, center, zoom, gx, n - 1) + match cell_coord(center, zoom, gx, n - 1) {
            Some(c) => if looked_up(m, c).state == TileState::NotLoaded {
                seq![c]
            } else {
                Seq::empty()
            },
            None => Seq::empty(),
        }
    }
}

/// The coordinates that the first `n` rows of the grid queue, row by row.
pub open spec fn grid_queue(m: Map<Coord, TileView>, center: (i64, i64), zoom: u32, n: int) -> Seq<
    Coord,
>
    decreases n,
{
    if n <= 0 {
        Seq::empty()
    } else {
        grid_queue(m, center, zoom, n - 1) + row_queue(m, center, zoom, n - 1, 5)
    }
}

/// The cache after the tiles of the grid before cell (`gx`, `gy`) were looked up.
pub open spec fn viewed(
    m: Map<Coord, TileView>,
    center: (i64, i64),
    zoom: u32,
    gx: int,
    gy: int,
) -> Map<Coord, TileView> {
    m.union_prefer_right(
        Map::new(
            |c: Coord| seen_before(center, zoom, c, gx, gy),
            |c: Coord| looked_up(m, c),
        ),
    )
}

/// How one pass over the grid around `center` at `zoom` changes the cache `m`, the queue `q`
/// and the grid `grid` (row by row, cell (`gx`, `gy`) at index `5 * gx + gy`) into `m2`,
/// `q2` and `grid2`: every tile in view is looked up and kept, those not loaded are queued in
/// grid order, and each cell with a valid tile takes that tile's record.
pub open spec fn populated(
    m: Map<Coord, TileView>,
    q: Seq<Coord>,
    grid: Seq<Tile>,
    center: (i64, i64),
    zoom: u32,
    m2: Map<Coord, TileView>,
    q2: Seq<Coord>,
    grid2: Seq<Tile>,
) -> bool {
    &&& m2 == m.union_prefer_right(
        Map::new(|c: Coord| in_view(center, zoom, c), |c: Coord| looked_up(m, c)),
    )
    &&& q2 == q + grid_queue(m, center, zoom, 5)
    &&& grid2.len() == grid.len()
    &&& forall|gx: int, gy: int|
        0 <= gx < 5 && 0 <= gy < 5 ==> match #[trigger] cell_coord(center, zoom, gx, gy) {
            Some(c) => grid2[5 * gx + gy]@ == looked_up(m, c),
            None => grid2[5 * gx + gy] == grid[5 * gx + gy],
        }
}

/// Looks up each tile of the grid around `center_tile` at `zoom_level`, row by row, and
/// queues those whose record is not loaded. Cell (`gx`, `gy`) of `tiles`, at index
/// `5 * gx + gy`, takes the record of its tile; a cell without a valid tile is left as it was.
pub fn populate_tiles(
    manager: &mut TileManager,
    center_tile: (i64, i64),
    zoom_level: u32,
    tiles: &mut Vec<Tile>,
)
    requires
        old(manager).wf(),
        old(tiles).len() == LOAD_TILE_DIMENSION * LOAD_TILE_DIMENSION,
    ensures
        final(manager).wf(),
        populated(
            old(manager).tiles(),
            old(manager).queue(),
            old(tiles)@,
            center_tile,
            zoom_level,
            final(manager).tiles(),
            final(manager).queue(),
            final(tiles)@,
        ),
{
    let ghost m0 = manager.tiles();
    let ghost q0 = manager.queue();
    let ghost t0 = tiles@;
    let mut x: usize = 0;
    while x < LOAD_TILE_DIMENSION
        invariant
            x <= 5,
            manager.wf(),
            manager.tiles() == viewed(m0, center_tile, zoom_level, x as int, 0),
            manager.queue() == q0 + grid_queue(m0, center_tile, zoom_level, x as int),
            tiles.len() == 25,
            forall|gx: int, gy: int|
                0 <= gx < 5 && 0 <= gy < 5 ==> match #[trigger] cell_coord(
                    center_tile,
                    zoom_level,
                    gx,
                    gy,
                ) {
                    Some(c) => gx < x ==> tiles[5 * gx + gy]@ == looked_up(m0, c),
                    None => tiles[5 * gx + gy] == t0[5 * gx + gy],
                },
            forall|gx: int, gy: int|
                0 <= gx < 5 && 0 <= gy < 5 && x <= gx ==> #[trigger] tiles[5 * gx + gy]
                    == t0[5 * gx + gy],
        decreases 5 - x,
    {
        let mut y: usize = 0;
        while y < LOAD_TILE_DIMENSION
            invariant
                x < 5,
                y <= 5,
                manager.wf(),
                manager.tiles() == viewed(m0, center_tile, zoom_level, x as int, y as int),
                manager.queue() == q0 + grid_queue(m0, center_tile, zoom_level, x as int)
                    + row_queue(m0, center_tile, zoom_level, x as int, y as int),
                tiles.len() == 25,
                forall|gx: int, gy: int|
                    0 <= gx < 5 && 0 <= gy < 5 ==> match #[trigger] cell_coord(
                        center_tile,
                        zoom_level,
                        gx,
                        gy,
                    ) {
                        Some(c) => (gx < x || (gx == x && gy < y)) ==> tiles[5 * gx + gy]@
                            == looked_up(m0, c),
                        None => tiles[5 * gx + gy] == t0[5 * gx + gy],
                    },
                forall|gx: int, gy: int|
                    0 <= gx < 5 && 0 <= gy < 5 && (x < gx || (x == gx && y <= gy))
                        ==> #[trigger] tiles[5 * gx + gy] == t0[5 * gx + gy],
            decreases 5 - y,
        {
            let tile_x: i128 = center_tile.0 as i128 + x as i128 - 2;
            let tile_y: i128 = center_tile.1 as i128 + y as i128 - 2;
            if tile_x > 0 && tile_y > 0 && tile_x <= u32::MAX as i128 && tile_y <= u32::MAX
                as i128 {
                let target_url: Coord = (tile_x as u32, tile_y as u32, zoom_level);
                let ghost before = manager.tiles();
                assert(cell_coord(center_tile, zoom_level, x as int, y as int) == Some(target_url));
                assert(looked_up(before, target_url) == looked_up(m0, target_url));
                let target_tile = manager.get_tile(&target_url);
                if target_tile.state == TileState::NotLoaded {
                    manager.queue_tile_load(target_url);
                }
                tiles.set(5 * x + y, target_tile);
                assert(manager.queue() =~= q0 + grid_queue(m0, center_tile, zoom_level, x as int)
                    + row_queue(m0, center_tile, zoom_level, x as int, y + 1));
                assert(manager.tiles() =~= viewed(
                    m0,
                    center_tile,
                    zoom_level,
                    x as int,
                    y + 1,
                ));
            } else {
                assert(cell_coord(center_tile, zoom_level, x as int, y as int) is None);
                assert(viewed(m0, center_tile, zoom_level, x as int, y as int) =~= viewed(
                    m0,
                    center_tile,
                    zoom_level,
                    x as int,
                    y + 1,
                ));
            }
            y = y + 1;
        }
        assert(viewed(m0, center_tile, zoom_level, x as int, 5) =~= viewed(
            m0,
            center_tile,
            zoom_level,
            x + 1,
            0,
        ));
        x = x + 1;
    }
    assert(manager.tiles() =~= m0.union_prefer_right(
        Map::new(|c: Coord| in_view(center_tile, zoom_level, c), |c: Coord| looked_up(m0, c)),
    ));
}

} // verus!
