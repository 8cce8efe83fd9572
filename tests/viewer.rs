use map_maker::message::MyMessage;
use map_maker::tile::{Coord, Tile, TileState};
use map_maker::viewer::MapMaker;

fn loaded(c: Coord, image: Vec<u8>) -> Tile {
    Tile { target_url: c, image, state: TileState::Loaded }
}

fn view_around(cx: u32, cy: u32, zoom: u32) -> Vec<Coord> {
    let mut v = Vec::new();
    for x in cx - 2..=cx + 2 {
        for y in cy - 2..=cy + 2 {
            v.push((x, y, zoom));
        }
    }
    v
}

#[test]
fn viewer_starts_at_zoom_four() {
    let map = MapMaker::new();
    assert_eq!(map.zoom_level, 4);
    assert_eq!(map.load_pixel, (1024, 1280));
    assert_eq!(map.tiles.len(), 25);
    assert!(map.tiles.iter().all(|t| t.target_url == (0, 0, 0) && t.state == TileState::NotLoaded));
}

#[test]
fn center_request_queues_whole_view() {
    let mut map = MapMaker::new();
    let batch = map.update(MyMessage::CenterPosition).unwrap();
    assert_eq!(batch, view_around(4, 5, 4));
    assert_eq!(map.tiles[0].target_url, (2, 3, 4));
    assert_eq!(map.tiles[24].target_url, (6, 7, 4));
}

#[test]
fn loaded_tiles_are_not_queued_again() {
    let mut map = MapMaker::new();
    let batch = map.update(MyMessage::CenterPosition).unwrap();
    let tiles: Vec<Tile> = batch.iter().take(3).map(|c| loaded(*c, vec![1])).collect();
    let next = map.update(MyMessage::LoadedImage(tiles)).unwrap();
    assert_eq!(next, view_around(4, 5, 4)[3..].to_vec());
    assert_eq!(map.tiles[0].state, TileState::Loaded);
    assert_eq!(map.tiles[0].image, vec![1]);
    assert_eq!(map.tiles[3].state, TileState::NotLoaded);
}

#[test]
fn empty_load_starts_nothing() {
    let mut map = MapMaker::new();
    assert!(map.update(MyMessage::LoadedImage(Vec::new())).is_none());
    assert!(map.update(MyMessage::ImageLoadFailed).is_none());
    assert!(map.update(MyMessage::VelocityEvent).is_none());
    assert_eq!(map.zoom_level, 4);
    assert_eq!(map.tiles[0].target_url, (0, 0, 0));
}

#[test]
fn zoom_in_doubles_position() {
    let mut map = MapMaker::new();
    let batch = map.update(MyMessage::ZoomIn).unwrap();
    assert_eq!(map.zoom_level, 5);
    assert_eq!(map.load_pixel, (2048, 2560));
    assert_eq!(batch, view_around(8, 10, 5));
}

#[test]
fn zoom_out_halves_position() {
    let mut map = MapMaker::new();
    let batch = map.update(MyMessage::ZoomOut).unwrap();
    assert_eq!(map.zoom_level, 3);
    assert_eq!(map.load_pixel, (512, 640));
    let expected: Vec<Coord> =
        view_around(2, 2, 3).into_iter().filter(|c| c.0 > 0 && c.1 > 0).collect();
    assert_eq!(batch, expected);
}

#[test]
fn zoom_out_stops_at_level_zero() {
    let mut map = MapMaker::new();
    for _ in 0..4 {
        assert!(map.update(MyMessage::ZoomOut).is_some());
    }
    assert_eq!(map.zoom_level, 0);
    assert!(map.update(MyMessage::ZoomOut).is_none());
    assert_eq!(map.zoom_level, 0);
}

#[test]
fn zoom_in_refuses_overflow() {
    let mut map = MapMaker::new();
    map.load_pixel = (i64::MAX / 2 + 1, 0);
    assert!(map.update(MyMessage::ZoomIn).is_none());
    assert_eq!(map.zoom_level, 4);
    map.load_pixel = (0, 0);
    map.zoom_level = u32::MAX;
    assert!(map.update(MyMessage::ZoomIn).is_none());
}

#[test]
fn negative_position_rounds_toward_zero() {
    let mut map = MapMaker::new();
    map.load_pixel = (-300, 600);
    let batch = map.update(MyMessage::CenterPosition).unwrap();
    assert_eq!(batch, vec![(1, 1, 4), (1, 2, 4), (1, 3, 4), (1, 4, 4)]);
    map.load_pixel = (-301, 7);
    map.update(MyMessage::ZoomOut).unwrap();
    assert_eq!(map.load_pixel, (-150, 3));
}

#[test]
fn tile_images_follow_the_grid() {
    let mut map = MapMaker::new();
    let batch = map.update(MyMessage::CenterPosition).unwrap();
    let tiles: Vec<Tile> = vec![loaded(batch[1], vec![4, 2])];
    map.update(MyMessage::LoadedImage(tiles));
    let imgs = map.get_tile_imgs();
    assert_eq!(imgs.len(), 25);
    assert_eq!(imgs[1], vec![4, 2]);
    assert!(imgs[0].is_empty());
}
