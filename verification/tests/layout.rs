use snippy::layout::{
    input_view, popup_spans, Area, InputView, PopupAxis, PopupSpans, Position, Span,
};

fn area(x: u16, y: u16, width: u16, height: u16) -> Area {
    Area { x, y, width, height }
}

fn view(scroll: Option<u16>, cursor: Option<(u16, u16)>) -> Option<InputView> {
    Some(InputView {
        scroll,
        cursor: cursor.map(|(column, row)| Position { column, row }),
    })
}

#[test]
fn popup_in_hundredths_is_centred() {
    let axis = PopupAxis { margin: Span::Percentage(5), popup: Span::Percentage(90) };
    assert_eq!(
        popup_spans(90, 90, true, area(0, 0, 80, 24)),
        Some(PopupSpans { rows: axis, columns: axis })
    );
}

#[test]
fn popup_in_cells_is_centred() {
    assert_eq!(
        popup_spans(35, 8, false, area(0, 0, 80, 24)),
        Some(PopupSpans {
            rows: PopupAxis { margin: Span::Length(8), popup: Span::Length(8) },
            columns: PopupAxis { margin: Span::Length(22), popup: Span::Length(35) },
        })
    );
    assert_eq!(
        popup_spans(200, 10, false, area(5, 5, 300, 10)),
        Some(PopupSpans {
            rows: PopupAxis { margin: Span::Length(0), popup: Span::Length(10) },
            columns: PopupAxis { margin: Span::Length(50), popup: Span::Length(200) },
        })
    );
}

#[test]
fn popup_larger_than_the_terminal_falls_back_to_hundredths() {
    let expected = Some(PopupSpans {
        rows: PopupAxis { margin: Span::Percentage(46), popup: Span::Percentage(8) },
        columns: PopupAxis { margin: Span::Percentage(32), popup: Span::Percentage(35) },
    });
    assert_eq!(popup_spans(35, 8, false, area(0, 0, 30, 24)), expected);
    assert_eq!(popup_spans(35, 8, false, area(0, 0, 80, 7)), expected);
}

#[test]
fn popup_of_more_than_a_hundred_hundredths_is_refused() {
    assert_eq!(popup_spans(101, 8, true, area(0, 0, 300, 300)), None);
    assert_eq!(popup_spans(8, 101, true, area(0, 0, 300, 300)), None);
    assert_eq!(popup_spans(150, 8, false, area(0, 0, 100, 24)), None);
    assert!(popup_spans(100, 100, true, area(0, 0, 10, 10)).is_some());
}

#[test]
fn empty_input_shows_the_cursor_on_its_first_row() {
    assert_eq!(input_view("", true, area(2, 3, 20, 3)), view(None, Some((3, 4))));
}

#[test]
fn cursor_stands_behind_the_last_byte_of_the_last_line() {
    assert_eq!(input_view("abc", true, area(2, 3, 20, 3)), view(None, Some((6, 4))));
    assert_eq!(input_view("é", true, area(2, 3, 20, 3)), view(None, Some((5, 4))));
    assert_eq!(input_view("abc\nde", true, area(0, 0, 20, 9)), view(None, Some((3, 2))));
    assert_eq!(input_view("abc\n", true, area(0, 0, 20, 9)), view(None, Some((1, 2))));
}

#[test]
fn input_with_more_lines_than_rows_scrolls() {
    assert_eq!(input_view("ab\ncd", true, area(2, 3, 20, 3)), view(Some(2), Some((5, 3))));
    assert_eq!(input_view("a\nb\nc\nd", true, area(1, 1, 20, 5)), view(Some(2), Some((3, 3))));
    assert_eq!(input_view("a\nb\nc", true, area(1, 1, 20, 5)), view(None, Some((3, 4))));
}

#[test]
fn field_without_cursor_reports_the_scroll_only() {
    assert_eq!(input_view("ab\ncd", false, area(2, 3, 20, 3)), view(Some(2), None));
    assert_eq!(input_view("ab", false, area(2, 3, 20, 3)), view(None, None));
}

#[test]
fn field_of_one_row_never_scrolls() {
    assert_eq!(input_view("a\nb\nc", true, area(0, 0, 20, 1)), view(None, Some((2, 3))));
    assert_eq!(input_view("a\nb\nc", true, area(0, 0, 20, 0)), view(None, Some((2, 3))));
}

#[test]
fn scrolled_field_at_the_top_has_no_row_for_its_cursor() {
    assert_eq!(input_view("x", true, area(0, 0, 10, 2)), None);
    assert_eq!(input_view("x", false, area(0, 0, 10, 2)), view(Some(2), None));
    assert_eq!(input_view("x", true, area(0, 1, 10, 2)), view(Some(2), Some((2, 0))));
}

#[test]
fn cursor_beyond_sixteen_bits_is_refused() {
    assert_eq!(input_view("ab", true, area(u16::MAX - 2, 0, 10, 9)), None);
    assert_eq!(input_view("a", true, area(u16::MAX - 2, 0, 10, 9)), view(None, Some((u16::MAX, 1))));
    assert_eq!(input_view("a", true, area(0, u16::MAX, 10, 1)), None);
    assert_eq!(input_view("a", true, area(0, u16::MAX - 1, 10, 1)), view(None, Some((2, u16::MAX))));
}

#[test]
fn line_count_wraps_at_sixteen_bits() {
    let many = "\n".repeat(65535);
    assert_eq!(input_view(&many, true, area(0, 0, 10, 1)), view(None, Some((1, 1))));
    let more = "\n".repeat(65536);
    assert_eq!(input_view(&more, true, area(0, 0, 10, 1)), view(None, Some((1, 1))));
    let long = "x".repeat(65536);
    assert_eq!(input_view(&long, true, area(0, 0, 10, 1)), view(None, Some((1, 1))));
}
