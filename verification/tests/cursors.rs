use cursors::nums::Num;
use cursors::term::{move_left_command_line, move_right_command_line, LineCursor};

#[test]
fn new_starts_at_top() {
    let n = Num::new();
    assert_eq!(n.index, 0);
    assert_eq!(n.skip, 0);
}

#[test]
fn default_equals_new() {
    let n = Num::default();
    assert_eq!(n.index, 0);
    assert_eq!(n.skip, 0);
}

#[test]
fn down_then_up_restores_state() {
    for start in [0usize, 1, 5, 1000] {
        let mut n = Num::new();
        n.go_bottom(start);
        n.go_down();
        assert_eq!(n.index, start + 1);
        n.go_up();
        assert_eq!(n.index, start);
        assert_eq!(n.skip, 0);
    }
}

#[test]
fn reset_always_yields_origin() {
    let mut n = Num::new();
    n.go_bottom(42);
    n.inc_skip();
    n.inc_skip();
    n.reset();
    assert_eq!(n.index, 0);
    assert_eq!(n.skip, 0);
}

#[test]
fn jump_sets_index_exactly() {
    let mut n = Num::new();
    n.go_bottom(7);
    assert_eq!(n.index, 7);
    n.go_bottom(3);
    assert_eq!(n.index, 3);
    n.go_bottom(0);
    assert_eq!(n.index, 0);
}

#[test]
fn jump_keeps_skip() {
    let mut n = Num::new();
    n.inc_skip();
    n.go_bottom(9);
    assert_eq!(n.index, 9);
    assert_eq!(n.skip, 1);
}

#[test]
fn inc_then_dec_skip_restores_skip() {
    for start in [1u16, 2, 500] {
        let mut n = Num::new();
        for _ in 0..start {
            n.inc_skip();
        }
        assert_eq!(n.skip, start);
        n.inc_skip();
        n.dec_skip();
        assert_eq!(n.skip, start);
        assert_eq!(n.index, 0);
    }
}

#[test]
fn ascii_moves_one_column_per_char() {
    let mut cur = LineCursor::new(vec!['a', 'b']);
    assert_eq!(cur.char_pos(), 0);
    assert_eq!(cur.column_pos(), 0);
    assert_eq!(cur.move_right(), Some(1));
    assert_eq!((cur.char_pos(), cur.column_pos()), (1, 1));
    assert_eq!(cur.move_right(), Some(1));
    assert_eq!((cur.char_pos(), cur.column_pos()), (2, 2));
    assert_eq!(cur.move_right(), None);
    assert_eq!((cur.char_pos(), cur.column_pos()), (2, 2));
    assert_eq!(cur.move_left(), Some(1));
    assert_eq!(cur.move_left(), Some(1));
    assert_eq!((cur.char_pos(), cur.column_pos()), (0, 0));
}

#[test]
fn wide_char_moves_two_columns() {
    let mut cur = LineCursor::new(vec!['\u{3042}', 'b']);
    assert_eq!(cur.move_right(), Some(2));
    assert_eq!((cur.char_pos(), cur.column_pos()), (1, 2));
    assert_eq!(cur.move_right(), Some(1));
    assert_eq!((cur.char_pos(), cur.column_pos()), (2, 3));
}

#[test]
fn round_trip_over_mixed_widths() {
    let buffer = vec!['x', '\u{3042}', 'y', '\u{3044}'];
    let mut cur = LineCursor::new(buffer);
    cur.move_right();
    let start = (cur.char_pos(), cur.column_pos());
    let k = 3;
    for _ in 0..k {
        assert!(cur.move_right().is_some());
    }
    for _ in 0..k {
        assert!(cur.move_left().is_some());
    }
    assert_eq!((cur.char_pos(), cur.column_pos()), start);
}

#[test]
fn zero_width_char_moves_cursor_not_column() {
    let mut cur = LineCursor::new(vec!['a', '\u{300}']);
    assert_eq!(cur.move_right(), Some(1));
    assert_eq!(cur.move_right(), Some(0));
    assert_eq!((cur.char_pos(), cur.column_pos()), (2, 1));
    assert_eq!(cur.move_left(), Some(0));
    assert_eq!((cur.char_pos(), cur.column_pos()), (1, 1));
}

#[test]
fn control_char_is_never_crossed() {
    let mut cur = LineCursor::new(vec!['a', '\u{7}', 'b']);
    assert_eq!(cur.move_right(), Some(1));
    assert_eq!(cur.move_right(), None);
    assert_eq!((cur.char_pos(), cur.column_pos()), (1, 1));
    let mut right_of_bell = LineCursor::new(vec!['\u{7}']);
    assert_eq!(right_of_bell.move_left(), None);
    assert_eq!(right_of_bell.move_right(), None);
    assert_eq!((right_of_bell.char_pos(), right_of_bell.column_pos()), (0, 0));
}

#[test]
fn move_left_at_start_is_noop() {
    let mut cur = LineCursor::new(vec!['a']);
    assert_eq!(cur.move_left(), None);
    assert_eq!((cur.char_pos(), cur.column_pos()), (0, 0));
}

#[test]
fn empty_buffer_never_moves() {
    let mut cur = LineCursor::new(Vec::new());
    assert_eq!(cur.move_right(), None);
    assert_eq!(cur.move_left(), None);
    assert_eq!((cur.char_pos(), cur.column_pos()), (0, 0));
}

#[test]
fn buffer_is_untouched_by_moves() {
    let mut cur = LineCursor::new(vec!['a', '\u{3042}']);
    cur.move_right();
    cur.move_right();
    cur.move_left();
    assert_eq!(cur.buffer().as_slice(), ['a', '\u{3042}'].as_slice());
}

#[test]
fn state_memo_round_trips_its_record() {
    let mut num = Num::new();
    num.go_bottom(12);
    num.inc_skip();
    let memo = cursors::nums::StateMemo {
        path: std::path::PathBuf::from("some/dir"),
        num,
        cursor_pos: 4,
    };
    assert_eq!(memo.num.index, 12);
    assert_eq!(memo.num.skip, 1);
    assert_eq!(memo.cursor_pos, 4);
    assert_eq!(memo.path, std::path::PathBuf::from("some/dir"));
}

#[test]
fn free_functions_track_width_arithmetic() {
    let input = ['\u{3042}', 'b'];
    let mut char_pos = 0usize;
    let mut pos = 0u16;
    assert_eq!(move_right_command_line(&input, &mut char_pos, &mut pos), Some(2));
    assert_eq!((char_pos, pos), (1, 2));
    assert_eq!(move_right_command_line(&input, &mut char_pos, &mut pos), Some(1));
    assert_eq!((char_pos, pos), (2, 3));
    assert_eq!(move_right_command_line(&input, &mut char_pos, &mut pos), None);
    assert_eq!((char_pos, pos), (2, 3));
    assert_eq!(move_left_command_line(&input, &mut char_pos, &mut pos), Some(1));
    assert_eq!((char_pos, pos), (1, 2));
    assert_eq!(move_left_command_line(&input, &mut char_pos, &mut pos), Some(2));
    assert_eq!((char_pos, pos), (0, 0));
    assert_eq!(move_left_command_line(&input, &mut char_pos, &mut pos), None);
    assert_eq!((char_pos, pos), (0, 0));
}

#[test]
fn free_functions_refuse_control_chars() {
    let input = ['\u{1b}'];
    let mut char_pos = 0usize;
    let mut pos = 0u16;
    assert_eq!(move_right_command_line(&input, &mut char_pos, &mut pos), None);
    assert_eq!((char_pos, pos), (0, 0));
}
