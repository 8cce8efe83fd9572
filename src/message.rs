use vstd::prelude::*;

use crate::tile::Tile;

verus! {

/// The events that drive the map viewer.
#[derive(Clone, Debug)]
pub enum MyMessage {
    LoadedImage(Vec<Tile>),
    ZoomIn,
    ZoomOut,
    ImageLoadFailed,
    CenterPosition,
    VelocityEvent,
}

/// The event that a finished load batch raises: the loaded records, or a failed load when the
/// batch yielded nothing.
pub fn process_load(resp: Option<Vec<Tile>>) -> (r: MyMessage)
    ensures
        match resp {
            Some(tiles) => r matches MyMessage::LoadedImage(t) && t@ == tiles@,
            None => r is ImageLoadFailed,
        },
{
    match resp {
        Some(tiles) => MyMessage::LoadedImage(tiles),
        None => MyMessage::ImageLoadFailed,
    }
}

} // verus!
