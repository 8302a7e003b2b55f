use naga_wgsl::span::{SourceLocation, Span};

#[test]
fn span_location_on_second_line() {
    let source = "a\nbc\nd";
    let loc = Span::new(3, 4).location(source);
    assert_eq!(loc, SourceLocation { line_number: 2, line_position: 2, offset: 3, length: 1 });
}

#[test]
fn span_location_at_start() {
    let loc = Span::new(0, 0).location("anything");
    assert_eq!(loc, SourceLocation { line_number: 1, line_position: 1, offset: 0, length: 0 });
}

#[test]
fn span_location_counts_bytes() {
    // "é" takes two bytes, so the newline is at byte 2 and `x` at byte 3.
    let source = "é\nx = éé";
    assert_eq!(
        Span::new(3, 4).location(source),
        SourceLocation { line_number: 2, line_position: 1, offset: 3, length: 1 }
    );
    // The second `é` on line 2 starts at byte 9, the 7th byte of its line.
    assert_eq!(Span::new(9, 11).location(source).line_position, 7);
}

#[test]
fn span_location_after_trailing_newline() {
    let source = "x\n\n";
    assert_eq!(Span::new(3, 3).location(source).line_number, 3);
    assert_eq!(Span::new(3, 3).location(source).line_position, 1);
}

#[test]
fn span_line_numbers_increase() {
    let source = "a\nb\nc\nd";
    let mut last = 0;
    for start in 0..source.len() as u32 {
        let line = Span::new(start, start).location(source).line_number;
        assert!(line >= last);
        last = line;
    }
    assert_eq!(last, 4);
}

#[test]
fn span_to_range_and_definedness() {
    assert_eq!(Span::new(0, 0).to_range(), None);
    assert!(!Span::new(0, 0).is_defined());
    assert_eq!(Span::new(0, 3).to_range(), Some(0..3));
    assert_eq!(Span::new(4, 4).to_range(), Some(4..4));
    assert!(Span::new(4, 4).is_defined());
}
