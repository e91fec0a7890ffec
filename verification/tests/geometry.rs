use game_2048_view::geometry::{grid_lines, tile_rect, Line, Point, Rect};

fn h(y: i64, width: i64) -> Line {
    Line { from: Point { x: 0, y }, to: Point { x: width, y } }
}

fn v(x: i64, height: i64) -> Line {
    Line { from: Point { x, y: 0 }, to: Point { x, y: height } }
}

#[test]
fn segment_count_is_twice_the_gaps() {
    for n in 1i32..40 {
        assert_eq!(grid_lines(n, 800).len(), 2 * (n as usize - 1));
    }
}

#[test]
fn single_cell_has_no_segments() {
    assert!(grid_lines(1, 800).is_empty());
}

#[test]
fn no_segments_below_one_cell() {
    assert!(grid_lines(0, 800).is_empty());
    assert!(grid_lines(-3, 800).is_empty());
    assert!(grid_lines(i32::MIN, 800).is_empty());
}

#[test]
fn segments_of_four_by_four_in_800() {
    assert_eq!(
        grid_lines(4, 800),
        vec![h(200, 800), v(200, 800), h(400, 800), v(400, 800), h(600, 800), v(600, 800)]
    );
}

#[test]
fn interior_lines_at_multiples_of_the_cell() {
    let lines = grid_lines(4, 800);
    let ys: Vec<i64> = lines.iter().filter(|l| l.from.y == l.to.y).map(|l| l.from.y).collect();
    let xs: Vec<i64> = lines.iter().filter(|l| l.from.x == l.to.x).map(|l| l.from.x).collect();
    assert_eq!(ys, vec![200, 400, 600]);
    assert_eq!(xs, vec![200, 400, 600]);
}

#[test]
fn uneven_division_truncates() {
    assert_eq!(grid_lines(3, 10), vec![h(3, 10), v(3, 10), h(6, 10), v(6, 10)]);
}

#[test]
fn window_smaller_than_grid() {
    assert_eq!(grid_lines(3, 2), vec![h(0, 2), v(0, 2), h(0, 2), v(0, 2)]);
}

#[test]
fn widest_window() {
    let lines = grid_lines(2, u32::MAX);
    assert_eq!(lines, vec![h(2147483647, 4294967295), v(2147483647, 4294967295)]);
}

#[test]
fn tile_one_two_of_four_in_800() {
    assert_eq!(tile_rect(1, 2, 4, 800), Rect { x: 200, y: 400, width: 200, height: 200 });
}

#[test]
fn tile_at_origin() {
    assert_eq!(tile_rect(0, 0, 4, 800), Rect { x: 0, y: 0, width: 200, height: 200 });
}

#[test]
fn tile_offset_multiplies_before_dividing() {
    // 2 * 11 / 4 = 5, while two cells of 11 / 4 = 2 pixels would be 4
    assert_eq!(tile_rect(2, 3, 4, 11), Rect { x: 5, y: 8, width: 2, height: 2 });
}

#[test]
fn negative_coordinates_round_toward_zero() {
    assert_eq!(tile_rect(-1, -2, 3, 10), Rect { x: -3, y: -6, width: 3, height: 3 });
    assert_eq!(tile_rect(-1, 1, 4, 800), Rect { x: -200, y: 200, width: 200, height: 200 });
}

#[test]
fn extreme_coordinates_do_not_overflow() {
    let r = tile_rect(i32::MAX, i32::MIN, 1, u32::MAX);
    assert_eq!(r.x, 2147483647i64 * 4294967295i64);
    assert_eq!(r.y, -2147483648i64 * 4294967295i64);
    assert_eq!(r.width, u32::MAX);
    assert_eq!(r.height, u32::MAX);
}

#[test]
fn tiles_of_an_even_grid_meet_the_lines() {
    let lines = grid_lines(4, 800);
    for i in 1..4i32 {
        let r = tile_rect(i, i, 4, 800);
        assert_eq!(r.y, lines[2 * (i as usize - 1)].from.y);
        assert_eq!(r.x, lines[2 * (i as usize - 1) + 1].from.x);
    }
}
