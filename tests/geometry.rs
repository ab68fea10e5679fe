use mario::geometry::{BBox, Vec2};
use mario::object::Object;
use mario::tilemap::{Tile, TileMap, MapError, EMPTY_SPRITE, TILE_SIZE};

fn map_with(cols: u32, rows: u32, solid: &[usize]) -> TileMap {
    let mut map = TileMap::new_empty(cols, rows);
    for &i in solid {
        map.set_tile_id(i, 3);
    }
    map
}

#[test]
fn right_edge_on_left_edge_does_not_intersect() {
    let a = BBox::new(0, 0, 3200, 3200);
    let b = BBox::new(3200, 0, 3200, 3200);
    assert!(!a.intersects(&b));
}

#[test]
fn left_edge_on_right_edge_intersects() {
    let a = BBox::new(3200, 0, 3200, 3200);
    let b = BBox::new(0, 0, 3200, 3200);
    assert!(a.intersects(&b));
}

#[test]
fn vertical_edges_follow_the_same_rule() {
    let top = BBox::new(0, 0, 3200, 3200);
    let below = BBox::new(0, 3200, 3200, 3200);
    assert!(!top.intersects(&below));
    assert!(below.intersects(&top));
}

#[test]
fn overlap_needs_both_axes() {
    let a = BBox::new(0, 0, 1000, 1000);
    let b = BBox::new(500, 500, 1000, 1000);
    let c = BBox::new(500, 2000, 1000, 1000);
    assert!(a.intersects(&b));
    assert!(b.intersects(&a));
    assert!(!a.intersects(&c));
}

#[test]
fn same_position_intersects() {
    let a = BBox::new(700, -300, 0, 1);
    assert!(!a.intersects(&a));
    let b = BBox::new(700, -300, 1, 1);
    assert!(b.intersects(&b));
}

#[test]
fn from_tiles_checks_the_count() {
    let tiles = vec![Tile { active: true, id: EMPTY_SPRITE }; 6];
    let ok = TileMap::from_tiles(3, 2, tiles.clone());
    assert!(ok.is_ok());
    let map = ok.unwrap();
    assert_eq!(map.dimensions, (3, 2));
    assert_eq!(map.tiles.len(), 6);
    assert_eq!(TileMap::from_tiles(4, 2, tiles).err(), Some(MapError::DimensionMismatch));
}

#[test]
fn tile_boxes_are_row_major() {
    let map = TileMap::new_empty(4, 3);
    assert_eq!(map.tiles.len(), 12);
    assert_eq!(map.tile_bbox(0), BBox::new(0, 0, TILE_SIZE, TILE_SIZE));
    assert_eq!(map.tile_bbox(5), BBox::new(3200, 3200, 3200, 3200));
    assert_eq!(map.tile_bbox(11), BBox::new(9600, 6400, 3200, 3200));
}

#[test]
fn first_colliding_tile_goes_by_index() {
    // Cell 1 is at column 1 of row 0; cell 2 is at column 0 of row 1, further
    // left. The query box covers both: the lower index wins.
    let map = map_with(2, 2, &[2, 1]);
    let probe = BBox::new(100, 100, 5000, 5000);
    let hit = Object::collided(&probe, &map);
    assert_eq!(hit, Some(BBox::new(3200, 0, 3200, 3200)));
}

#[test]
fn empty_cells_never_collide() {
    let map = map_with(2, 2, &[]);
    let probe = BBox::new(0, 0, 6400, 6400);
    assert_eq!(Object::collided(&probe, &map), None);
}

#[test]
fn empty_map_never_collides() {
    let map = TileMap::new_empty(0, 0);
    let probe = BBox::new(0, 0, 6400, 6400);
    assert_eq!(Object::collided(&probe, &map), None);
}

#[test]
fn box_outside_the_map_never_collides() {
    let map = map_with(2, 2, &[0, 1, 2, 3]);
    let probe = BBox::new(-5000, -5000, 1000, 1000);
    assert_eq!(Object::collided(&probe, &map), None);
}

#[test]
fn query_skips_to_a_later_cell() {
    let map = map_with(3, 3, &[0, 8]);
    let probe = BBox::new(6500, 6500, 100, 100);
    assert_eq!(Object::collided(&probe, &map), Some(BBox::new(6400, 6400, 3200, 3200)));
}

#[test]
fn vec2_new_keeps_coordinates() {
    let v = Vec2::new(-4, 9);
    assert_eq!((v.x, v.y), (-4, 9));
}
