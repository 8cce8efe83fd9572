use vstd::prelude::*;

verus! {

/// Where one tile is in its lifecycle.
#[derive(Clone, Copy, Debug, PartialEq, Eq, Structural)]
pub enum TileState {
    NotLoaded,
    Loading,
    Loaded,
}

/// A tile coordinate: x, y and zoom level.
pub type Coord = (u32, u32, u32);

/// What a tile holds, as plain mathematical values.
pub struct TileView {
    pub target_url: Coord,
    pub image: Seq<u8>,
    pub state: TileState,
}

/// One raster tile: its coordinate, its image bytes (empty until loaded) and its state.
#[derive(Debug)]
pub struct Tile {
    pub target_url: Coord,
    pub image: Vec<u8>,
    pub state: TileState,
}

impl View for Tile {
    type V = TileView;

    open spec fn view(&self) -> TileView {
        TileView { target_url: self.target_url, image: self.image@, state: self.state }
    }
}

/// The record of a coordinate that has not been fetched yet.
pub open spec fn fresh_tile(c: Coord) -> TileView {
    TileView { target_url: c, image: Seq::empty(), state: TileState::NotLoaded }
}

impl Tile {
    pub fn new(target_url: &Coord) -> (r: Self)
        ensures
            r@ == fresh_tile(*target_url),
    {
        Tile { target_url: *target_url, image: Vec::new(), state: TileState::NotLoaded }
    }
}

impl Clone for Tile {
    fn clone(&self) -> (r: Self)
        ensures
            r@ == self@,
    {
        Tile { target_url: self.target_url, image: self.image.clone(), state: self.state }
    }
}

impl Default for Tile {
    fn default() -> (r: Self)
        ensures
            r@ == fresh_tile((0, 0, 0)),
    {
        Tile { target_url: (0, 0, 0), image: Vec::new(), state: TileState::NotLoaded }
    }
}

} // verus!
