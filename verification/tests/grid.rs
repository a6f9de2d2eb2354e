use smm2_stats::level_parser::{ground_occupancy, MapGround};

#[test]
fn grid_bands_for_empty_ground() {
    // ground = [], start_y = 3, goal_x = 55, goal_y = 2:
    // the goal band covers columns 5..15 in rows 0..2,
    // the start band covers columns 0..7 in rows 0..3
    let ground: Vec<MapGround> = Vec::new();
    let grid = ground_occupancy(&ground, 3, 2, 55);
    for x in 0..300usize {
        for y in 0..300usize {
            let in_goal_band = 5 <= x && x < 15 && y < 2;
            let in_start_band = x < 7 && y < 3;
            let want = if in_goal_band || in_start_band { 1 } else { 0 };
            assert_eq!(grid.get(x, y), want, "cell ({}, {})", x, y);
        }
    }
}

#[test]
fn grid_marks_ground_records_shifted_by_one() {
    let ground = vec![
        MapGround { x: 10, y: 20, id: 0, bid: 0 },
        MapGround { x: 0, y: 0, id: 0, bid: 0 },
        MapGround { x: 255, y: 255, id: 0, bid: 0 },
    ];
    let grid = ground_occupancy(&ground, 0, 0, 0);
    assert_eq!(grid.get(11, 21), 1);
    assert_eq!(grid.get(1, 1), 1);
    assert_eq!(grid.get(256, 256), 1);
    assert_eq!(grid.get(10, 20), 0);
    assert_eq!(grid.get(12, 21), 0);
}

#[test]
fn grid_goal_band_is_clamped_to_the_grid() {
    // a goal far to the right: the band lies entirely past column 299
    let ground: Vec<MapGround> = Vec::new();
    let grid = ground_occupancy(&ground, 0, 5, 32000);
    for x in 0..300usize {
        for y in 0..300usize {
            assert_eq!(grid.get(x, y), 0);
        }
    }
    // a negative goal position: only the columns at or above zero are set
    let grid = ground_occupancy(&ground, 0, 1, -15);
    // band_left = floor(-15 / 10) = -2, so columns 0..8 of row 0 are set
    for x in 0..300usize {
        let want = if x < 8 { 1 } else { 0 };
        assert_eq!(grid.get(x, 0), want, "column {}", x);
    }
}
