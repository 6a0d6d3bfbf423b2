use platformer_core::streaming::{StreamConfig, StreamingWindow};
use platformer_core::tilemap::TileMap;

fn window(tile_size: i32, origin: (i32, i32), ext: (i32, i32), map: Vec<Vec<u32>>) -> StreamingWindow {
    let cells = TileMap { map }.cells();
    StreamingWindow::new(
        StreamConfig {
            tile_size,
            origin_x: origin.0,
            origin_y: origin.1,
            ext_x: ext.0,
            ext_y: ext.1,
        },
        i32::MIN / 4,
        i32::MIN / 4,
        10,
        cells,
    )
}

#[test]
fn scenario_row_spawns_collider_with_sprite() {
    // Tilemap row [0, 2, 0] at row index 0, tile size 32, map origin
    // (-100, 100): cell (1, 0) spawns a collider at world (-68, 100) with
    // sprite index 1.
    let mut w = window(32, (-100, 100), (200, 200), vec![vec![0, 2, 0]]);
    assert_eq!(w.cells.len(), 1, "zero tiles never become cells");
    let settled = w.update(0, 0, 10);
    assert!(settled);
    assert_eq!(w.entries.len(), 1);
    let e = &w.entries[0];
    assert_eq!((e.collider.x, e.collider.y), (-68, 100));
    assert_eq!((e.collider.w, e.collider.h), (32, 32));
    assert!(e.collider.collision);
    assert_eq!(e.sprite, 1);
    assert_eq!((e.collider.grid_x, e.collider.grid_y), (1, 0));
    assert_eq!(w.cells[0].loaded, Some(e.id));
}

#[test]
fn streaming_idempotence() {
    // A second update with an unchanged focal point spawns and despawns
    // nothing.
    let mut w = window(16, (0, 0), (100, 100), vec![vec![1, 1, 1], vec![0, 1, 0]]);
    w.update(0, 0, 10);
    let cells_before: Vec<_> = w.cells.iter().map(|c| c.loaded).collect();
    let ids_before: Vec<_> = w.entries.iter().map(|e| e.id).collect();
    let next_id_before = w.next_id;
    let settled = w.update(0, 0, 10);
    assert!(!settled);
    let cells_after: Vec<_> = w.cells.iter().map(|c| c.loaded).collect();
    let ids_after: Vec<_> = w.entries.iter().map(|e| e.id).collect();
    assert_eq!(cells_before, cells_after);
    assert_eq!(ids_before, ids_after);
    assert_eq!(next_id_before, w.next_id);
}

#[test]
fn streaming_completeness() {
    // After one settled update the loaded set is exactly the set of cells
    // whose world position falls inside the activation bounds.
    let map = vec![vec![1; 10]; 10];
    let mut w = window(16, (0, 0), (40, 40), map);
    let settled = w.update(50, -50, 10);
    assert!(settled);
    for c in w.cells.iter() {
        let wx = 0 + c.grid_x as i32 * 16;
        let wy = 0 - c.grid_y as i32 * 16;
        let inside = wx >= 50 - 40 && wx < 50 + 40 && wy >= -50 - 40 && wy < -50 + 40;
        assert_eq!(c.loaded.is_some(), inside, "cell ({}, {})", c.grid_x, c.grid_y);
    }
    let loaded = w.cells.iter().filter(|c| c.loaded.is_some()).count();
    assert_eq!(w.entries.len(), loaded);
}

#[test]
fn debounce_blocks_early_updates() {
    let mut w = window(16, (0, 0), (100, 100), vec![vec![1]]);
    let settled = w.update(0, 0, 3); // timer needs 10
    assert!(!settled);
    assert_eq!(w.entries.len(), 0);
    let settled = w.update(0, 0, 3);
    assert!(!settled);
    // Third tick reaches the duration and the focal point has moved.
    let settled = w.update(0, 0, 4);
    assert!(settled);
    assert_eq!(w.entries.len(), 1);
}

#[test]
fn moving_away_despawns() {
    let mut w = window(16, (0, 0), (50, 50), vec![vec![1, 1]]);
    w.update(0, 0, 10);
    assert_eq!(w.entries.len(), 2);
    let first_ids: Vec<_> = w.entries.iter().map(|e| e.id).collect();
    // Move the focal point far away: both cells unload.
    w.update(10_000, 10_000, 10);
    assert_eq!(w.entries.len(), 0);
    assert!(w.cells.iter().all(|c| c.loaded.is_none()));
    // Coming back spawns fresh handles.
    w.update(0, 0, 10);
    assert_eq!(w.entries.len(), 2);
    for e in w.entries.iter() {
        assert!(!first_ids.contains(&e.id), "despawned handles are never reused");
    }
}

#[test]
fn kept_cells_keep_their_handles() {
    let mut w = window(16, (0, 0), (50, 50), vec![vec![1, 1, 1, 1, 1, 1, 1, 1]]);
    w.update(0, 0, 10);
    let kept: Vec<_> = w
        .cells
        .iter()
        .filter(|c| c.loaded.is_some())
        .map(|c| (c.grid_x, c.loaded))
        .collect();
    w.update(16, 0, 10);
    for (gx, old_handle) in kept {
        let c = w.cells.iter().find(|c| c.grid_x == gx).unwrap();
        if c.loaded.is_some() {
            assert_eq!(c.loaded, old_handle, "a cell that stays active keeps its instance");
        }
    }
}

#[test]
fn cull_outside_drops_far_entities() {
    let mut w = window(16, (0, 0), (50, 50), vec![vec![1]]);
    w.update(0, 0, 10);
    // Bounds are now [-50, 50) on both axes around (0, 0).
    let positions = vec![(7_u64, 0, 0), (8_u64, 49, -50), (9_u64, 50, 0), (10_u64, 0, -51)];
    let culled = w.cull_outside(&positions);
    assert_eq!(culled, vec![9, 10]);
}
