use editor::text::join_lines;
use editor::text::split_lines;

#[test]
fn split_lines_handles_line_endings() {
    assert_eq!(split_lines(""), Vec::<String>::new());
    assert_eq!(split_lines("a"), vec!["a"]);
    assert_eq!(split_lines("a\nb"), vec!["a", "b"]);
    assert_eq!(split_lines("a\nb\n"), vec!["a", "b"]);
    assert_eq!(split_lines("\n\n"), vec!["", ""]);
    assert_eq!(split_lines("a\r\nb"), vec!["a", "b"]);
    assert_eq!(split_lines("\n"), vec![""]);
}

#[test]
fn join_lines_adds_one_trailing_line_feed() {
    assert_eq!(join_lines(&vec![]), "\n");
    assert_eq!(join_lines(&vec![String::from("abc")]), "abc\n");
    assert_eq!(
        join_lines(&vec![String::from("a"), String::from("b")]),
        "a\nb\n"
    );
    assert_eq!(join_lines(&vec![String::new()]), "\n");
}

#[test]
fn writing_then_loading_reproduces_the_lines() {
    let lines = vec![
        String::from("first"),
        String::from(""),
        String::from("third line"),
    ];
    let text = join_lines(&lines);
    assert_eq!(split_lines(&text), lines);
}
