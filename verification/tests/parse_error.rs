use naga_wgsl::error::{Error, ParseError};
use naga_wgsl::frontend::{Frontend, Options};
use naga_wgsl::span::{SourceLocation, Span};

fn sp(start: u32, end: u32) -> Span {
    Span::new(start, end)
}

fn single() -> ParseError<'static> {
    ParseError::Single {
        message: "something went wrong".to_string(),
        labels: vec![(sp(4, 7), "here".to_string()), (sp(0, 0), "nowhere".to_string())],
        notes: vec!["try again".to_string()],
    }
}

#[test]
fn parse_error_single_accessors() {
    let e = single();
    assert_eq!(e.message(), "something went wrong");
    assert_eq!(e.labels(), vec![(sp(4, 7), "here"), (sp(0, 0), "nowhere")]);
    assert_eq!(e.to_string(), "something went wrong");
    assert_eq!(
        e.location("let\nfoo = 1;"),
        Some(SourceLocation { line_number: 2, line_position: 1, offset: 4, length: 3 })
    );
}

#[test]
fn parse_error_without_labels_has_no_location() {
    let e = ParseError::Single { message: "m".to_string(), labels: vec![], notes: vec![] };
    assert_eq!(e.location("abc"), None);
}

#[test]
fn parse_error_multiple_accessors() {
    let errors: Vec<Box<Error<'static>>> = vec![
        Box::new(Error::UnknownType(sp(0, 3))),
        Box::new(Error::NotBool(sp(4, 5))),
    ];
    let e = ParseError::from(errors);
    assert_eq!(e.message(), "Multiple parse errors");
    assert!(e.labels().is_empty());
    assert_eq!(e.location("foo bar"), None);
    assert_eq!(
        e.to_string(),
        "Unknown type at Span { start: 0, end: 3 }\nError: NotBool(Span { start: 4, end: 5 })\n"
    );
}

#[test]
fn parse_error_diagnostic_drops_undefined_spans_and_prefixes_notes() {
    let d = single().diagnostic();
    assert_eq!(d.message, "something went wrong");
    assert_eq!(d.labels, vec![(4..7, "here".to_string())]);
    assert_eq!(d.notes, vec!["note: try again".to_string()]);
    let m = ParseError::Multiple(vec![]).diagnostic();
    assert_eq!(m.message, "Multiple parse errors");
    assert!(m.labels.is_empty() && m.notes.is_empty());
}

#[test]
fn parse_error_emit_single() {
    let source = "let\nfoo = 1;";
    let out = single().emit_to_string(source);
    assert!(out.starts_with("error: something went wrong"));
    assert!(out.contains("wgsl:2:1"));
    assert!(out.contains("foo = 1;"));
    assert!(out.contains("^^^ here"));
    assert!(out.contains("= note: try again"));
    assert!(!out.contains("nowhere"));
    assert_eq!(out, single().emit_to_string_with_path(source, "wgsl"));
    let named = single().emit_to_string_with_path(source, "shader.wgsl");
    assert!(named.contains("shader.wgsl:2:1"));
}

#[test]
fn parse_error_emit_multiple() {
    let source = "foo bar";
    let errors: Vec<Box<Error<'static>>> = vec![
        Box::new(Error::UnknownType(sp(0, 3))),
        Box::new(Error::NotBool(sp(4, 5))),
    ];
    let first = Error::UnknownType(sp(0, 3)).emit_to_string(source);
    let second = Error::NotBool(sp(4, 5)).emit_to_string(source);
    assert!(first.starts_with("error: Unknown type at Span { start: 0, end: 3 }"));
    assert!(second.starts_with("error: Error: NotBool(Span { start: 4, end: 5 })"));
    let e = ParseError::Multiple(errors);
    assert_eq!(e.emit_to_string(source), format!("{}\n{}\n", first, second));
    assert_eq!(
        Error::NotBool(sp(4, 5)).emit_to_string_with_path(source, "other"),
        second
    );
}

#[test]
fn parse_error_of_report_points_at_span() {
    let source = "var x: foo;";
    let report = Error::UnknownType(sp(7, 10)).as_parse_error(source);
    assert_eq!(report.message(), "unknown type");
    assert_eq!(report.location(source), Some(SourceLocation { line_number: 1, line_position: 8, offset: 7, length: 3 }));
    let out = report.emit_to_string(source);
    assert!(out.contains("wgsl:1:8"));
    assert!(out.contains("^^^ unknown type"));
}

#[test]
fn frontend_options_and_results() {
    let mut f = Frontend::new();
    assert_eq!(f.options(), Options { parse_doc_comments: false });
    let g = Frontend::new_with_options(Options { parse_doc_comments: true });
    assert!(g.options().parse_doc_comments);
    let ok: Result<u32, Vec<Box<Error<'static>>>> = Ok(7);
    assert!(matches!(f.parse(ok), Ok(7)));
    let err: Result<u32, Vec<Box<Error<'static>>>> = Err(vec![Box::new(Error::NotBool(sp(0, 1)))]);
    match f.parse(err) {
        Err(ParseError::Multiple(errors)) => {
            assert_eq!(errors.len(), 1);
            assert!(matches!(*errors[0], Error::NotBool(s) if s == sp(0, 1)));
        }
        _ => panic!("expected the errors"),
    }
    assert_eq!(Options::new(), Options { parse_doc_comments: false });
}

#[test]
fn renderings_without_positions_ignore_file_name_and_source() {
    let e = Error::UnknownType(sp(0, 3));
    assert_eq!(e.emit_to_string_with_path("foo bar", "a.wgsl"), e.emit_to_string("something else entirely"));
    let unplaced = ParseError::Single {
        message: "no place".to_string(),
        labels: vec![(sp(0, 0), "nowhere".to_string())],
        notes: vec!["a note".to_string()],
    };
    assert_eq!(unplaced.emit_to_string_with_path("abc", "x.wgsl"), unplaced.emit_to_string("defgh\nij"));
    let several = ParseError::Multiple(vec![Box::new(Error::NotBool(sp(4, 5)))]);
    assert_eq!(several.emit_to_string_with_path("abcdef", "y.wgsl"), several.emit_to_string("zz"));
}
