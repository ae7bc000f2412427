use editor::state::WindowState;
use editor::ui::dec_string;
use editor::ui::format_statusline;
use editor::ui::render_ops;
use editor::ui::replace_all;
use editor::ui::reset_screen_ops;
use editor::ui::DrawOp;

#[test]
fn dec_string_writes_decimal() {
    assert_eq!(dec_string(0), "0");
    assert_eq!(dec_string(7), "7");
    assert_eq!(dec_string(10), "10");
    assert_eq!(dec_string(65536), "65536");
}

#[test]
fn replace_all_replaces_leftmost_without_overlap() {
    assert_eq!(replace_all("a{x}b{x}", "{x}", "1"), "a1b1");
    assert_eq!(replace_all("aaa", "aa", "b"), "ba");
    assert_eq!(replace_all("abc", "z", "y"), "abc");
    assert_eq!(replace_all("", "z", "y"), "");
}

#[test]
fn statusline_shows_one_based_cursor_coordinates() {
    let mut state = WindowState::new();
    state.cursor_position = (2, 4);
    assert_eq!(format_statusline(&state), "[{mode}] L: 5, C: 3");
}

#[test]
fn render_ops_draw_each_line_and_the_statusline() {
    let mut state = WindowState::new();
    state.content.push(String::from("hi"));
    state.content.push(String::from("there"));
    state.cursor_position = (1, 1);
    state.dimensions = (80, 24);

    let ops = render_ops(&state);

    assert_eq!(
        ops,
        vec![
            DrawOp::ClearAll,
            DrawOp::MoveTo(0, 0),
            DrawOp::Print(String::from("hi")),
            DrawOp::MoveTo(1, 1),
            DrawOp::MoveTo(0, 1),
            DrawOp::Print(String::from("there")),
            DrawOp::MoveTo(1, 1),
            DrawOp::MoveTo(0, 23),
            DrawOp::Print(String::from("[{mode}] L: 2, C: 2")),
            DrawOp::MoveTo(1, 1),
        ]
    );
}

#[test]
fn reset_screen_ops_clear_and_place_the_cursor() {
    let mut state = WindowState::new();
    state.cursor_position = (5, 6);
    assert_eq!(
        reset_screen_ops(&state),
        vec![DrawOp::ClearAll, DrawOp::MoveTo(5, 6)]
    );
}
