use vstd::prelude::*;

use crate::message::MyMessage;
use crate::tile::{fresh_tile, Coord, Tile, TileView};
use crate::tile_manager::{ingested, TileManager};
use crate::viewport::{populate_tiles, populated, LOAD_TILE_DIMENSION};

verus! {

/// Width and height of one tile, in pixels.
pub const TILE_PIXELS: i64 = 256;

/// `p / d`, rounded toward zero.
pub open spec fn div_toward_zero(p: int, d: int) -> int {
    if p >= 0 {
        p / d
    } else {
        -((-p) / d)
    }
}

/// The tile under pixel position `p`: each pixel coordinate divided by the tile size,
/// rounded toward zero.
pub open spec fn center_of(p: (i64, i64)) -> (i64, i64) {
    (
        div_toward_zero(p.0 as int, TILE_PIXELS as int) as i64,
        div_toward_zero(p.1 as int, TILE_PIXELS as int) as i64,
    )
}

fn divide_toward_zero(p: i64, d: i64) -> (r: i64)
    requires
        d >= 2,
    ensures
        r == div_toward_zero(p as int, d as int),
{
    if p >= 0 {
        p / d
    } else {
        let m: i128 = -(p as i128);
        let q: i128 = m / (d as i128);
        assert(q <= m / 2) by {
            vstd::arithmetic::div_mod::lemma_div_is_ordered_by_denominator(m as int, 2, d as int);
        }
        -(q as i64)
    }
}

/// The viewer's state: the grid of tiles on screen, the pixel position of the view at the
/// current zoom level, and the tile cache.
pub struct MapMaker {
    pub tiles: Vec<Tile>,
    pub load_pixel: (i64, i64),
    pub zoom_level: u32,
    pub tile_manager: TileManager,
}

impl MapMaker {
    pub open spec fn wf(&self) -> bool {
        &&& self.tiles.len() == LOAD_TILE_DIMENSION * LOAD_TILE_DIMENSION
        &&& self.tile_manager.wf()
    }

    /// What a pass over the grid around the current view does to `self`, given the cache as
    /// `m` before it.
    pub open spec fn repopulated(
        old_self: &MapMaker,
        m: Map<Coord, TileView>,
        new_self: &MapMaker,
        batch: Seq<Coord>,
    ) -> bool {
        &&& populated(
            m,
            old_self.tile_manager.queue(),
            old_self.tiles@,
            center_of(new_self.load_pixel),
            new_self.zoom_level,
            new_self.tile_manager.tiles(),
            batch,
            new_self.tiles@,
        )
        &&& new_self.tile_manager.queue() == Seq::<Coord>::empty()
    }

    /// A viewer at zoom level 4, at pixel (1024, 1280), with an empty cache and a grid of
    /// blank tiles.
    pub fn new() -> (r: Self)
        ensures
            r.wf(),
            r.load_pixel == (1024i64, 1280i64),
            r.zoom_level == 4,
            r.tile_manager.tiles() == Map::<Coord, TileView>::empty(),
            r.tile_manager.queue() == Seq::<Coord>::empty(),
            forall|i: int| 0 <= i < r.tiles.len() ==> (#[trigger] r.tiles[i])@ == fresh_tile(
                (0, 0, 0),
            ),
    {
        let mut tiles: Vec<Tile> = Vec::new();
        let mut i: usize = 0;
        while i < LOAD_TILE_DIMENSION * LOAD_TILE_DIMENSION
            invariant
                i <= 25,
                tiles.len() == i,
                forall|j: int| 0 <= j < i ==> (#[trigger] tiles[j])@ == fresh_tile((0, 0, 0)),
            decreases 25 - i,
        {
            tiles.push(Tile::default());
            i = i + 1;
        }
        MapMaker {
            tiles,
            load_pixel: (4 * TILE_PIXELS, 5 * TILE_PIXELS),
            zoom_level: 4,
            tile_manager: TileManager::new(),
        }
    }

    /// The image of each cell of the grid, in cell order.
    pub fn get_tile_imgs(&self) -> (r: Vec<Vec<u8>>)
        ensures
            r.len() == self.tiles.len(),
            forall|i: int| 0 <= i < r.len() ==> (#[trigger] r[i])@ == self.tiles[i].image@,
    {
        let mut imgs: Vec<Vec<u8>> = Vec::new();
        let mut i: usize = 0;
        while i < self.tiles.len()
            invariant
                i <= self.tiles.len(),
                imgs.len() == i,
                forall|j: int| 0 <= j < i ==> (#[trigger] imgs[j])@ == self.tiles[j].image@,
            decreases self.tiles.len() - i,
        {
            imgs.push(self.tiles[i].image.clone());
            i = i + 1;
        }
        imgs
    }

    /// Looks up the grid around the current view, then drains the load queue: the batch that
    /// the next load fetches.
    fn populate_and_drain(&mut self) -> (r: Vec<Coord>)
        requires
            old(self).wf(),
        ensures
            final(self).wf(),
            final(self).load_pixel == old(self).load_pixel,
            final(self).zoom_level == old(self).zoom_level,
            Self::repopulated(old(self), old(self).tile_manager.tiles(), final(self), r@),
    {
        let center = (
            divide_toward_zero(self.load_pixel.0, TILE_PIXELS),
            divide_toward_zero(self.load_pixel.1, TILE_PIXELS),
        );
        populate_tiles(&mut self.tile_manager, center, self.zoom_level, &mut self.tiles);
        self.tile_manager.generate_async_load()
    }

    /// Handles one event. Loaded records are merged into the cache; a zoom changes the level
    /// and scales the pixel position to it. After either, and on a request to recenter, the
    /// grid is looked up anew and the load queue is drained into the returned batch, which
    /// the caller fetches and hands back as a `LoadedImage`. An empty load, a failed load, a
    /// zoom past either end of the levels and a velocity tick start nothing and change
    /// nothing.
    pub fn update(&mut self, message: MyMessage) -> (r: Option<Vec<Coord>>)
        requires
            old(self).wf(),
        ensures
            final(self).wf(),
            match message {
                MyMessage::LoadedImage(new_tiles) => if new_tiles.len() == 0 {
                    r is None && *final(self) == *old(self)
                } else {
                    r matches Some(batch) && final(self).load_pixel == old(self).load_pixel
                        && final(self).zoom_level == old(self).zoom_level && Self::repopulated(
                        old(self),
                        ingested(
                            old(self).tile_manager.tiles(),
                            new_tiles@.map_values(|t: Tile| t@),
                        ),
                        final(self),
                        batch@,
                    )
                },
                MyMessage::ZoomIn => if old(self).zoom_level < u32::MAX && i64::MIN <= 2
                    * old(self).load_pixel.0 <= i64::MAX && i64::MIN <= 2 * old(
                    self,
                ).load_pixel.1 <= i64::MAX {
                    r matches Some(batch) && final(self).zoom_level == old(self).zoom_level + 1
                        && final(self).load_pixel == (
                        (2 * old(self).load_pixel.0) as i64,
                        (2 * old(self).load_pixel.1) as i64,
                    ) && Self::repopulated(
                        old(self),
                        old(self).tile_manager.tiles(),
                        final(self),
                        batch@,
                    )
                } else {
                    r is None && *final(self) == *old(self)
                },
                MyMessage::ZoomOut => if old(self).zoom_level > 0 {
                    r matches Some(batch) && final(self).zoom_level == old(self).zoom_level - 1
                        && final(self).load_pixel == (
                        div_toward_zero(old(self).load_pixel.0 as int, 2) as i64,
                        div_toward_zero(old(self).load_pixel.1 as int, 2) as i64,
                    ) && Self::repopulated(
                        old(self),
                        old(self).tile_manager.tiles(),
                        final(self),
                        batch@,
                    )
                } else {
                    r is None && *final(self) == *old(self)
                },
                MyMessage::CenterPosition => r matches Some(batch) && final(self).load_pixel == old(
                    self,
                ).load_pixel && final(self).zoom_level == old(self).zoom_level
                    && Self::repopulated(
                    old(self),
                    old(self).tile_manager.tiles(),
                    final(self),
                    batch@,
                ),
                MyMessage::ImageLoadFailed | MyMessage::VelocityEvent => r is None && *final(self)
                    == *old(self),
            },
    {
        match message {
            MyMessage::LoadedImage(new_tiles) => {
                if new_tiles.len() == 0 {
                    return None;
                }
                self.tile_manager.ingest_loaded_tiles(new_tiles);
            },
            MyMessage::ZoomIn => {
                if self.zoom_level == u32::MAX {
                    return None;
                }
                let x = self.load_pixel.0.checked_mul(2);
                let y = self.load_pixel.1.checked_mul(2);
                match (x, y) {
                    (Some(x), Some(y)) => {
                        self.zoom_level = self.zoom_level + 1;
                        self.load_pixel = (x, y);
                    },
                    _ => {
                        return None;
                    },
                }
            },
            MyMessage::ZoomOut => {
                if self.zoom_level == 0 {
                    return None;
                }
                self.zoom_level = self.zoom_level - 1;
                self.load_pixel = (
                    divide_toward_zero(self.load_pixel.0, 2),
                    divide_toward_zero(self.load_pixel.1, 2),
                );
            },
            MyMessage::CenterPosition => {},
            MyMessage::ImageLoadFailed | MyMessage::VelocityEvent => {
                return None;
            },
        }
        Some(self.populate_and_drain())
    }
}

} // verus!
