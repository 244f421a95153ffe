use voicefox::pages::lyric::{lyric_cut, lyric_line, lyric_rows, translation_row, LyricRow};

fn placed(rows: &[LyricRow]) -> Vec<(usize, usize, usize)> {
    rows.iter().map(|r| (r.line, r.row, r.distance)).collect()
}

#[test]
fn the_current_line_sits_on_the_middle_row() {
    let rows = lyric_rows(10, 5, 5, false);
    assert_eq!(placed(&rows), vec![(3, 0, 2), (4, 1, 1), (5, 2, 0), (6, 3, 1), (7, 4, 2)]);
}

#[test]
fn the_translation_pushes_later_lines_down() {
    let rows = lyric_rows(10, 5, 5, true);
    assert_eq!(placed(&rows), vec![(3, 0, 2), (4, 1, 1), (5, 2, 0), (6, 4, 1)]);
    assert_eq!(translation_row(5, true), Some(3));
    assert_eq!(translation_row(1, true), None);
    assert_eq!(translation_row(5, false), None);
}

#[test]
fn the_first_lines_leave_the_top_rows_empty() {
    let rows = lyric_rows(10, 0, 4, false);
    assert_eq!(placed(&rows), vec![(0, 2, 0), (1, 3, 1)]);
    assert!(lyric_rows(10, 0, 0, false).is_empty());
    assert_eq!(placed(&lyric_rows(2, 1, 9, false)), vec![(0, 3, 1), (1, 4, 0)]);
}

#[test]
fn lyric_text_is_trimmed_and_cut() {
    assert_eq!(lyric_cut("  hello  ", 3), "he…");
    assert_eq!(lyric_cut("  hello  ", 5), "hello");
    assert_eq!(lyric_cut("abc", 0), "");
    assert_eq!(lyric_cut("abc", 1), "…");
    assert_eq!(lyric_line("hi", true, 10), "❯ hi");
    assert_eq!(lyric_line("hello", false, 5), "  he…");
}
