//! The pathfinder on small grids: optimal lengths, detours around
//! walls, and unreachable goals.

use winternight::tilemap::TileMap;
use winternight::pathfind::pathfind;

/// A cell far outside every grid used here, standing in for "no cell
/// blocked".
const NOWHERE: (usize, usize) = (1000, 1000);

fn open_grid(w: usize, h: usize) -> TileMap {
    TileMap::new(vec![0u8; w * h], w).unwrap()
}

#[test]
fn straight_shot_on_empty_grid() {
    let map = open_grid(5, 5);
    let (path, cost) = pathfind(&map, (0, 0), (4, 4), NOWHERE).unwrap();
    assert_eq!(cost, 8);
    assert_eq!(path.len(), 9);
    assert_eq!(path[0], (0, 0));
    assert_eq!(path[8], (4, 4));
    for w in path.windows(2) {
        let dx = w[0].0.abs_diff(w[1].0);
        let dy = w[0].1.abs_diff(w[1].1);
        assert_eq!(dx + dy, 1);
    }
}

#[test]
fn wall_in_the_middle_keeps_length() {
    let mut tiles = vec![0u8; 25];
    tiles[2 + 2 * 5] = 1;
    let map = TileMap::new(tiles, 5).unwrap();
    let (path, cost) = pathfind(&map, (0, 0), (4, 4), NOWHERE).unwrap();
    assert_eq!(cost, 8);
    assert_eq!(path.len(), 9);
    assert!(!path.contains(&(2, 2)));
}

#[test]
fn enclosed_goal_yields_none() {
    let mut tiles = vec![0u8; 25];
    tiles[3 + 4 * 5] = 1;
    tiles[4 + 3 * 5] = 1;
    let map = TileMap::new(tiles, 5).unwrap();
    assert!(pathfind(&map, (0, 0), (4, 4), NOWHERE).is_none());
}

#[test]
fn blocked_cell_forces_detour() {
    // A 3x3 grid with the middle column walled except its center,
    // which the player occupies: no way through.
    let mut tiles = vec![0u8; 9];
    tiles[1 + 0 * 3] = 1;
    tiles[1 + 2 * 3] = 1;
    let map = TileMap::new(tiles, 3).unwrap();
    assert!(pathfind(&map, (0, 0), (2, 0), (1, 1)).is_none());
    // With the player elsewhere the gap is open again.
    let (_, cost) = pathfind(&map, (0, 0), (2, 0), NOWHERE).unwrap();
    assert_eq!(cost, 4);
}

#[test]
fn start_equals_goal() {
    let map = open_grid(2, 2);
    let (path, cost) = pathfind(&map, (1, 1), (1, 1), NOWHERE).unwrap();
    assert_eq!(cost, 0);
    assert_eq!(path, vec![(1, 1)]);
}

#[test]
fn goal_outside_grid_yields_none() {
    let map = open_grid(2, 2);
    assert!(pathfind(&map, (0, 0), (5, 0), NOWHERE).is_none());
}
