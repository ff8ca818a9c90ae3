use raycaster::frame::{
    column_draw, frame_draws, ColumnDraw, HORIZON_ROW, LIT_COLOR, SHADOW_COLOR, VIEW_COLUMNS,
};
use raycaster::input::{decode_gamepad, Buttons};
use raycaster::motion::settle;
use raycaster::sweep::{sweep_stop, SWEEP_STEPS};
use raycaster::world::{cell_in_wall, row_bits, MAP_HEIGHT, MAP_WIDTH};

#[test]
fn rows_outside_map_are_walls() {
    for col in -3..20 {
        assert!(cell_in_wall(col, -1));
        assert!(cell_in_wall(col, MAP_HEIGHT));
        assert!(cell_in_wall(col, 100));
        assert!(cell_in_wall(col, i64::MIN));
    }
}

#[test]
fn columns_outside_map_are_walls() {
    for row in 0..MAP_HEIGHT {
        assert!(cell_in_wall(-1, row));
        assert!(cell_in_wall(MAP_WIDTH, row));
        assert!(cell_in_wall(i64::MAX, row));
    }
}

#[test]
fn map_border_is_walled() {
    for col in 0..MAP_WIDTH {
        assert!(cell_in_wall(col, 0));
        assert!(cell_in_wall(col, MAP_HEIGHT - 1));
    }
    for row in 0..MAP_HEIGHT {
        assert!(cell_in_wall(0, row));
        assert!(cell_in_wall(MAP_WIDTH - 1, row));
    }
}

#[test]
fn row_one_reads_its_bits() {
    assert_eq!(row_bits(1), Some(0b1000001010000101));
    assert_eq!(row_bits(8), None);
    let expected = [
        true, false, true, false, false, false, false, true, false, true, false, false, false,
        false, false, true,
    ];
    for col in 0..MAP_WIDTH {
        assert_eq!(cell_in_wall(col, 1), expected[col as usize], "column {}", col);
    }
}

#[test]
fn start_cell_is_open() {
    assert!(!cell_in_wall(1, 1));
}

#[test]
fn ray_from_start_along_row_one_stops_at_column_two() {
    // From (1.5, 1.5) heading along +x the first grid line crossed is x = 2,
    // and column 2 of row 1 is the nearest wall to the right.
    let cells: Vec<(i64, i64)> = (0..SWEEP_STEPS as i64).map(|k| (2 + k, 1)).collect();
    assert_eq!(sweep_stop(&cells), 0);
    let slice = column_draw(80, 200, true);
    assert_eq!(slice, ColumnDraw { color: SHADOW_COLOR, column: 80, top: -20, length: 200 });
}

#[test]
fn sweep_stops_at_first_wall() {
    let cells = vec![(1, 1), (3, 1), (4, 1), (7, 1), (8, 1)];
    assert_eq!(sweep_stop(&cells), 3);
}

#[test]
fn sweep_through_open_cells_runs_out_of_samples() {
    let cells = vec![(1, 1), (3, 1), (4, 1)];
    assert_eq!(sweep_stop(&cells), 3);
    assert_eq!(sweep_stop(&Vec::new()), 0);
}

#[test]
fn sweep_is_bounded_by_step_budget() {
    let cells = vec![(1, 1); SWEEP_STEPS + 10];
    assert_eq!(sweep_stop(&cells), SWEEP_STEPS);
    let mut cells = vec![(1, 1); SWEEP_STEPS + 10];
    cells[SWEEP_STEPS] = (0, 0);
    assert_eq!(sweep_stop(&cells), SWEEP_STEPS);
    cells[SWEEP_STEPS - 1] = (0, 0);
    assert_eq!(sweep_stop(&cells), SWEEP_STEPS - 1);
}

#[test]
fn sweep_leaving_the_map_stops_at_its_edge() {
    let cells: Vec<(i64, i64)> = (0..SWEEP_STEPS as i64).map(|k| (1, 1 - k)).collect();
    assert_eq!(sweep_stop(&cells), 1);
}

#[test]
fn move_into_wall_is_rolled_back() {
    let previous = (1.5f32, 1.5f32);
    let candidate = (1.98f32, 1.5f32);
    assert_eq!(settle(previous, candidate, (2, 1)), previous);
    assert_eq!(settle(previous, (2.5f32, 0.9f32), (2, 0)), previous);
}

#[test]
fn move_into_open_cell_is_kept() {
    let previous = (1.5f32, 1.5f32);
    let candidate = (1.545f32, 1.5f32);
    assert_eq!(settle(previous, candidate, (1, 1)), candidate);
}

#[test]
fn still_move_stays_put() {
    let p = (3.25f32, 2.75f32);
    for _ in 0..5 {
        assert_eq!(settle(p, p, (3, 2)), p);
        assert_eq!(settle(p, p, (0, 0)), p);
    }
}

#[test]
fn gamepad_bits_decode() {
    assert_eq!(
        decode_gamepad(0),
        Buttons { up: false, down: false, left: false, right: false }
    );
    assert_eq!(decode_gamepad(16), Buttons { up: false, down: false, left: true, right: false });
    assert_eq!(decode_gamepad(32), Buttons { up: false, down: false, left: false, right: true });
    assert_eq!(decode_gamepad(64), Buttons { up: true, down: false, left: false, right: false });
    assert_eq!(decode_gamepad(128), Buttons { up: false, down: true, left: false, right: false });
    assert_eq!(decode_gamepad(0b0000_1111), decode_gamepad(0));
    assert_eq!(decode_gamepad(0xff), Buttons { up: true, down: true, left: true, right: true });
    assert_eq!(decode_gamepad(64 | 32), Buttons { up: true, down: false, left: false, right: true });
}

#[test]
fn column_draw_centres_on_horizon() {
    assert_eq!(column_draw(0, 0, false), ColumnDraw { color: LIT_COLOR, column: 0, top: 80, length: 0 });
    assert_eq!(column_draw(5, 41, false).top, HORIZON_ROW - 20);
    assert_eq!(column_draw(159, 160, true).top, 0);
    assert_eq!(column_draw(7, -3, false).top, 81);
    assert_eq!(column_draw(7, -3, false).length, u32::MAX - 2);
    let big = column_draw(1, i32::MAX, false);
    assert_eq!(big.top, 80 - (i32::MAX / 2));
    assert_eq!(big.length, i32::MAX as u32);
}

#[test]
fn frame_draws_one_line_per_column() {
    let view: Vec<(i32, bool)> = (0..VIEW_COLUMNS as i32).map(|i| (i, i % 2 == 0)).collect();
    let draws = frame_draws(&view);
    assert_eq!(draws.len(), VIEW_COLUMNS);
    for (i, d) in draws.iter().enumerate() {
        assert_eq!(d.column, i as i32);
        assert_eq!(d.length, i as u32);
        assert_eq!(d.top, 80 - (i as i32) / 2);
        assert_eq!(d.color, if i % 2 == 0 { SHADOW_COLOR } else { LIT_COLOR });
    }
    assert!(frame_draws(&Vec::new()).is_empty());
}
