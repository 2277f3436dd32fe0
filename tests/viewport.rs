use terminal_drop_down::viewport::visible_range;

#[test]
fn short_list_shows_everything_whatever_the_cursor() {
    for cursor in 0..3 {
        assert_eq!(visible_range(3, cursor, 10), (0, 3));
    }
    assert_eq!(visible_range(5, 4, 5), (0, 5));
    assert_eq!(visible_range(0, 0, 1), (0, 0));
}

#[test]
fn overflow_window_contains_cursor_for_every_cursor() {
    for total in 2..30usize {
        for w in 1..total {
            for cursor in 0..total {
                let (start, end) = visible_range(total, cursor, w);
                assert!(start <= cursor && cursor < start + w);
                assert!(start <= total - w);
                assert_eq!(end, start + w);
            }
        }
    }
}

#[test]
fn overflow_centering_at_cursor_ten() {
    let (start, end) = visible_range(20, 10, 5);
    assert_eq!((start, end), (8, 13));
    assert_eq!(10 - start, 2);
}

#[test]
fn window_clamps_at_both_ends() {
    assert_eq!(visible_range(20, 0, 5), (0, 5));
    assert_eq!(visible_range(20, 1, 5), (0, 5));
    assert_eq!(visible_range(20, 19, 5), (15, 20));
    assert_eq!(visible_range(20, 17, 4), (15, 19));
    assert_eq!(visible_range(20, 18, 4), (16, 20));
}

#[test]
fn single_line_window_follows_cursor() {
    for cursor in 0..7 {
        assert_eq!(visible_range(7, cursor, 1), (cursor, cursor + 1));
    }
}
