use terminal_drop_down::render::{
    cancel_line, clear_screen, confirm_line, decimal, empty_notice, frame_lines, option_rows, row,
    LEGEND, PROMPT,
};

fn labels(items: &[&str]) -> Vec<String> {
    items.iter().map(|s| s.to_string()).collect()
}

#[test]
fn decimal_notation() {
    assert_eq!(decimal(0), "0");
    assert_eq!(decimal(7), "7");
    assert_eq!(decimal(10), "10");
    assert_eq!(decimal(13), "13");
    assert_eq!(decimal(20), "20");
    assert_eq!(decimal(1234567890), "1234567890");
    assert_eq!(decimal(usize::MAX), usize::MAX.to_string());
}

#[test]
fn rows_are_marked() {
    assert_eq!(row(&"apple".to_string(), true), "\x1B[7m> apple\x1B[0m");
    assert_eq!(row(&"apple".to_string(), false), "  apple");
}

#[test]
fn frame_of_three_options() {
    let lines = frame_lines(&labels(&["a", "b", "c"]), 1, 10);
    let want = vec![
        PROMPT.to_string(),
        "Total: 3 | Showing: 1 - 3".to_string(),
        String::new(),
        "  a".to_string(),
        "\x1B[7m> b\x1B[0m".to_string(),
        "  c".to_string(),
        String::new(),
        LEGEND.to_string(),
    ];
    assert_eq!(lines, want);
    assert_eq!(PROMPT, "Please select.（ESC for canceling）:");
    assert_eq!(LEGEND, "↑: Up | ↓: Down | Enter: Confirm | ESC: Cancel");
}

#[test]
fn frame_of_empty_list() {
    let lines = frame_lines(&Vec::new(), 0, 3);
    assert_eq!(lines, vec!["No options available.".to_string(), "Press ESC to exit.".to_string()]);
}

#[test]
fn overflow_frame_highlights_third_of_five() {
    let items: Vec<String> = (0..20).map(|i| format!("item{}", i)).collect();
    let rows = option_rows(&items, 10, 5);
    assert_eq!(rows.len(), 5);
    assert_eq!(rows[0], "  item8");
    assert_eq!(rows[2], "\x1B[7m> item10\x1B[0m");
    assert_eq!(rows[4], "  item12");
    assert_eq!(rows.iter().filter(|r| r.starts_with("\x1B[7m")).count(), 1);
    let lines = frame_lines(&items, 10, 5);
    assert_eq!(lines[1], "Total: 20 | Showing: 9 - 13");
    assert_eq!(lines.len(), 5 + 5);
}

#[test]
fn row_count_matches_window_for_every_cursor() {
    let items: Vec<String> = (0..9).map(|i| format!("o{}", i)).collect();
    for w in 1..12 {
        for cursor in 0..9 {
            let rows = option_rows(&items, cursor, w);
            let expected = if w >= 9 { 9 } else { w };
            assert_eq!(rows.len(), expected);
            assert_eq!(rows.iter().filter(|r| r.starts_with("\x1B[7m> ")).count(), 1);
        }
    }
}

#[test]
fn fixed_lines() {
    assert_eq!(confirm_line(&"a".to_string()), "Confirm delete: a");
    assert_eq!(cancel_line(), "Delete canceled.");
    assert_eq!(empty_notice(), "No options available.");
    assert_eq!(clear_screen(), "\x1B[2J\x1B[1;1H");
}
