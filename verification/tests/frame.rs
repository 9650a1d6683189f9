use vie_core::cell::Cell;
use vie_core::frame::FrameBuffer as Buffer;
use vie_core::frame::OutOfBoundsError;
use vie_core::layout::{Position, Rect};
use vie_core::style::{Color, Style};

fn assert_diff(diff: Vec<&Cell>, expected: Vec<Cell>) {
    for (a, b) in diff.iter().zip(expected.iter()) {
        assert_eq!(*a, b);
    }
}

fn assert_exact_diff(diff: Vec<&Cell>, expected: Vec<Cell>) {
    assert_eq!(diff.len(), expected.len());
    assert_diff(diff, expected);
}

#[test]
fn empty_buffers_have_no_diff() {
    let front = Buffer::empty(Rect::new(5, 5));
    let back = Buffer::empty(Rect::new(5, 5));

    assert!(front.diff(&back).is_empty());
}

#[test]
fn identical_filled_buffers_have_no_diff() {
    let front = Buffer::filled(Rect::new(5, 5), "A");
    let back = Buffer::filled(Rect::new(5, 5), "A");

    assert!(front.diff(&back).is_empty());
}

#[test]
fn different_filled_buffers_have_full_diff() {
    let front = Buffer::empty(Rect::new(2, 2));
    let back = Buffer::filled(Rect::new(2, 2), "O");

    let diff = front.diff(&back);

    let expected_diff = vec![
        Cell::new(0, 0, "O", Style::default()),
        Cell::new(1, 0, "O", Style::default()),
        Cell::new(0, 1, "O", Style::default()),
        Cell::new(1, 1, "O", Style::default()),
    ];
    assert_diff(diff, expected_diff);
}

#[test]
fn write_full_line_has_a_full_line_diff() {
    let front = Buffer::empty(Rect::new(5, 2));
    let mut back = Buffer::empty(Rect::new(5, 2));

    back.write_line(0, "hello", &Style::default()).unwrap();
    let diff = front.diff(&back);

    let expected_diff = vec![
        Cell::new(0, 0, "h", Style::default()),
        Cell::new(1, 0, "e", Style::default()),
        Cell::new(2, 0, "l", Style::default()),
        Cell::new(3, 0, "l", Style::default()),
        Cell::new(4, 0, "o", Style::default()),
        Cell::new(0, 1, " ", Style::default()),
        Cell::new(1, 1, " ", Style::default()),
        Cell::new(2, 1, " ", Style::default()),
        Cell::new(3, 1, " ", Style::default()),
        Cell::new(4, 1, " ", Style::default()),
    ];
    assert_diff(diff, expected_diff);
}

#[test]
fn write_full_lines_has_a_full_diff() {
    let front = Buffer::empty(Rect::new(5, 2));
    let mut back = Buffer::empty(Rect::new(5, 2));

    back.write_line(0, "hello", &Style::default()).unwrap();
    back.write_line(1, "world", &Style::default()).unwrap();
    let diff = front.diff(&back);

    let expected_diff = vec![
        Cell::new(0, 0, "h", Style::default()),
        Cell::new(1, 0, "e", Style::default()),
        Cell::new(2, 0, "l", Style::default()),
        Cell::new(3, 0, "l", Style::default()),
        Cell::new(4, 0, "o", Style::default()),
        Cell::new(0, 1, "w", Style::default()),
        Cell::new(1, 1, "o", Style::default()),
        Cell::new(2, 1, "r", Style::default()),
        Cell::new(3, 1, "l", Style::default()),
        Cell::new(4, 1, "d", Style::default()),
    ];
    assert_diff(diff, expected_diff);
}

#[test]
fn write_partial_line_clears_remainder_of_line() {
    let front = Buffer::empty(Rect::new(10, 1));
    let mut back = Buffer::filled(Rect::new(10, 1), "B");

    back.write_line(0, "hello", &Style::default()).unwrap();
    let diff = front.diff(&back);

    let expected_diff = vec![
        Cell::new(0, 0, "h", Style::default()),
        Cell::new(1, 0, "e", Style::default()),
        Cell::new(2, 0, "l", Style::default()),
        Cell::new(3, 0, "l", Style::default()),
        Cell::new(4, 0, "o", Style::default()),
        // Remaining blanked out cells will not show in diff
        // as they match the empty front buffer.
    ];
    assert_diff(diff, expected_diff);
}

#[test]
fn reset_clears_the_buffer() {
    let front = Buffer::empty(Rect::new(10, 10));
    let mut back = Buffer::filled(Rect::new(10, 10), "B");

    back.reset();

    assert!(front.diff(&back).is_empty());
}

#[test]
fn diff_holds_exactly_the_changed_cells_in_row_major_order() {
    let front = Buffer::empty(Rect::new(3, 3));
    let mut back = Buffer::empty(Rect::new(3, 3));
    back.write_line(2, "x", &Style::default()).unwrap();
    back.write_line(0, " yz", &Style::default()).unwrap();

    let expected = vec![
        Cell::new(1, 0, "y", Style::default()),
        Cell::new(2, 0, "z", Style::default()),
        Cell::new(0, 2, "x", Style::default()),
    ];
    assert_exact_diff(front.diff(&back), expected);
}

#[test]
fn partial_line_diff_has_no_cell_beyond_the_text() {
    let front = Buffer::empty(Rect::new(10, 1));
    let mut back = Buffer::filled(Rect::new(10, 1), "B");
    back.write_line(0, "hello", &Style::default()).unwrap();
    assert_eq!(front.diff(&back).len(), 5);
}

#[test]
fn short_line_drops_the_style_of_the_rest_of_the_row() {
    let highlight = Style::new(Color::Red, Color::Blue);
    let front = Buffer::empty(Rect::new(4, 1));
    let mut back = Buffer::empty(Rect::new(4, 1));
    back.write_line(0, "abcd", &highlight).unwrap();
    back.write_line(0, "ab", &highlight).unwrap();

    let expected = vec![Cell::new(0, 0, "a", highlight), Cell::new(1, 0, "b", highlight)];
    assert_exact_diff(front.diff(&back), expected);
}

#[test]
fn long_line_is_truncated_at_the_row_end() {
    let front = Buffer::empty(Rect::new(3, 2));
    let mut back = Buffer::empty(Rect::new(3, 2));
    back.write_line(0, "abcdef", &Style::default()).unwrap();

    let expected = vec![
        Cell::new(0, 0, "a", Style::default()),
        Cell::new(1, 0, "b", Style::default()),
        Cell::new(2, 0, "c", Style::default()),
    ];
    assert_exact_diff(front.diff(&back), expected);
}

#[test]
fn empty_text_blanks_the_whole_row() {
    let front = Buffer::empty(Rect::new(3, 2));
    let mut back = Buffer::filled(Rect::new(3, 2), "B");
    back.write_line(1, "", &Style::default()).unwrap();

    let expected = vec![
        Cell::new(0, 0, "B", Style::default()),
        Cell::new(1, 0, "B", Style::default()),
        Cell::new(2, 0, "B", Style::default()),
    ];
    assert_exact_diff(front.diff(&back), expected);
}

#[test]
fn combining_marks_share_a_cell_with_their_base() {
    let front = Buffer::empty(Rect::new(4, 1));
    let mut back = Buffer::empty(Rect::new(4, 1));
    back.write_line(0, "e\u{301}a\u{310}z", &Style::default()).unwrap();

    let expected = vec![
        Cell::new(0, 0, "e\u{301}", Style::default()),
        Cell::new(1, 0, "a\u{310}", Style::default()),
        Cell::new(2, 0, "z", Style::default()),
    ];
    assert_exact_diff(front.diff(&back), expected);
}

#[test]
fn write_line_outside_the_buffer_is_an_error() {
    let mut buffer = Buffer::filled(Rect::new(3, 2), "B");
    let untouched = Buffer::filled(Rect::new(3, 2), "B");
    assert_eq!(buffer.write_line(2, "abc", &Style::default()), Err(OutOfBoundsError));
    assert_eq!(buffer.write_line(usize::MAX, "abc", &Style::default()), Err(OutOfBoundsError));
    assert!(untouched.diff(&buffer).is_empty());
    assert_eq!(buffer.write_line(1, "abc", &Style::default()), Ok(()));
}

#[test]
fn reset_keeps_styles_and_positions() {
    let highlight = Style::new(Color::Rgb(1, 2, 3), Color::AnsiValue(7));
    let front = Buffer::empty(Rect::new(2, 1));
    let mut back = Buffer::empty(Rect::new(2, 1));
    back.write_line(0, "ab", &highlight).unwrap();
    back.reset();

    let expected = vec![Cell::new(0, 0, " ", highlight), Cell::new(1, 0, " ", highlight)];
    assert_exact_diff(front.diff(&back), expected);
}

#[test]
fn cells_of_a_positioned_buffer_carry_absolute_positions() {
    let area = Rect::positioned(2, 2, 5, 7);
    let front = Buffer::empty(area);
    let back = Buffer::filled(area, "x");
    let expected = vec![
        Cell::new(5, 7, "x", Style::default()),
        Cell::new(6, 7, "x", Style::default()),
        Cell::new(5, 8, "x", Style::default()),
        Cell::new(6, 8, "x", Style::default()),
    ];
    assert_exact_diff(front.diff(&back), expected);
    assert_eq!(back.area(), area);
}

#[test]
fn index_of_is_row_major_from_the_area_origin() {
    let buffer = Buffer::empty(Rect::positioned(4, 3, 5, 7));
    assert_eq!(buffer.index_of(&Position::new(5, 7)), Ok(0));
    assert_eq!(buffer.index_of(&Position::new(8, 7)), Ok(3));
    assert_eq!(buffer.index_of(&Position::new(6, 9)), Ok(9));
    assert_eq!(buffer.index_of(&Position::new(4, 7)), Err(OutOfBoundsError));
    assert_eq!(buffer.index_of(&Position::new(9, 7)), Err(OutOfBoundsError));
    assert_eq!(buffer.index_of(&Position::new(5, 10)), Err(OutOfBoundsError));
    assert_eq!(buffer.index_of(&Position::new(0, 0)), Err(OutOfBoundsError));
}

#[test]
fn get_finds_a_cell_by_its_position() {
    let mut buffer = Buffer::empty(Rect::positioned(3, 2, 5, 7));
    buffer.write_line(1, "abc", &Style::default()).unwrap();
    assert_eq!(buffer.get(&Position::new(5, 7)), Ok(&Cell::new(5, 7, " ", Style::default())));
    assert_eq!(buffer.get(&Position::new(6, 8)), Ok(&Cell::new(6, 8, "b", Style::default())));
    assert_eq!(buffer.get(&Position::new(7, 8)), Ok(&Cell::new(7, 8, "c", Style::default())));
    assert_eq!(buffer.get(&Position::new(8, 8)), Err(OutOfBoundsError));
    assert_eq!(buffer.get(&Position::new(5, 9)), Err(OutOfBoundsError));
    assert_eq!(buffer.get(&Position::new(0, 0)), Err(OutOfBoundsError));
}

#[test]
fn out_of_bounds_error_has_a_message() {
    assert_eq!(OutOfBoundsError.message(), "trying to access index out of bounds");
}

#[test]
fn cell_accessors_return_what_the_cell_was_made_of() {
    let style = Style::new(Color::Green, Color::Black);
    let mut cell = Cell::new(3, 4, "q", style);
    assert_eq!(*cell.position(), Position::new(3, 4));
    assert_eq!(cell.symbol(), "q");
    assert_eq!(*cell.style(), style);
    assert_eq!(cell.style().foreground(), Color::Green);
    assert_eq!(cell.style().background(), Color::Black);
    cell.reset();
    assert_eq!(cell.symbol(), " ");
    assert_eq!(*cell.style(), style);
    assert_eq!(*cell.position(), Position::new(3, 4));
    assert_eq!(cell.clone(), cell);
}

#[test]
fn default_style_leaves_both_colors_to_the_terminal() {
    assert_eq!(Style::default(), Style::new(Color::Reset, Color::Reset));
}
