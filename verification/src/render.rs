//! Rendering reports as the multi-line text that a terminal shows: a
//! header, the quoted source lines under the labels, and the notes.

use vstd::prelude::*;
use vstd::string::*;
use crate::error::{Error, ParseError, ParseErrorView, Report, labels_view, strings_view, unboxed};
use crate::span::Span;
use crate::text::{lit, each_line, lines_joined};
use codespan_reporting::diagnostic::Label;
use codespan_reporting::term::termcolor::NoColor;

verus! {

/// An error diagnostic ready for rendering: its message, its labels (byte
/// ranges of the source with their texts; all are primary) and its notes.
pub struct Diagnostic {
    pub message: String,
    pub labels: Vec<(core::ops::Range<usize>, String)>,
    pub notes: Vec<String>,
}

/// The labels of a diagnostic as plain values: `(start, end, text)`.
pub open spec fn diagnostic_labels_view(labels: Seq<(core::ops::Range<usize>, String)>) -> Seq<(usize, usize, Seq<char>)> {
    labels.map_values(|l: (core::ops::Range<usize>, String)| (l.0.start, l.0.end, l.1@))
}

/// The text that `codespan_reporting::term::emit` writes, with the default
/// configuration and without colours, for an error diagnostic with the
/// given message, primary labels `(start, end, text)` and notes, on a
/// single file of the given name and source text.
pub uninterp spec fn emitted_error(
    file_name: Seq<char>,
    source: Seq<char>,
    message: Seq<char>,
    labels: Seq<(usize, usize, Seq<char>)>,
    notes: Seq<Seq<char>>,
) -> Seq<char>;

/// Renders an error diagnostic with `codespan_reporting::term::emit`, with
/// the default configuration, into an uncoloured buffer, on a
/// `SimpleFile` named `file_name` holding `source`. The contract names the
/// result: the same inputs render to the same text. Without labels, only
/// the header and the notes are written, and the file is never read, so the
/// text is then the same whatever the file's name and source. `emit` only
/// fails when writing fails, which a buffer in memory does not; a label
/// that starts at `usize::MAX` makes it overflow, so `requires` leaves that
/// out.
#[verifier::external_body]
fn emit_error(file_name: &str, source: &str, diagnostic: &Diagnostic) -> (r: String)
    requires
        forall|i: int| 0 <= i < diagnostic.labels@.len() ==> diagnostic.labels@[i].0.start < usize::MAX,
    ensures
        r@ == emitted_error(
            file_name@,
            source@,
            diagnostic.message@,
            diagnostic_labels_view(diagnostic.labels@),
            strings_view(diagnostic.notes@),
        ),
        diagnostic.labels@.len() == 0 ==> r@ == emitted_error(
            Seq::empty(),
            Seq::empty(),
            diagnostic.message@,
            diagnostic_labels_view(diagnostic.labels@),
            strings_view(diagnostic.notes@),
        ),
{
    let labels = diagnostic.labels.iter().map(|(range, text)| Label::primary((), range.clone()).with_message(text)).collect();
    let rendered = codespan_reporting::diagnostic::Diagnostic::error()
        .with_message(&diagnostic.message).with_labels(labels).with_notes(diagnostic.notes.clone());
    let files = codespan_reporting::files::SimpleFile::new(file_name, source);
    let mut writer = NoColor::new(Vec::<u8>::new());
    codespan_reporting::term::emit(&mut writer, &codespan_reporting::term::Config::default(), &files, &rendered)
        .expect("cannot write error");
    String::from_utf8(writer.into_inner()).expect("rendered text is UTF-8")
}

/// The labels of a report with a defined span, as diagnostic labels.
pub open spec fn defined_labels(labels: Seq<(Span, Seq<char>)>) -> Seq<(usize, usize, Seq<char>)>
    decreases labels.len(),
{
    if labels.len() == 0 {
        Seq::empty()
    } else {
        let rest = defined_labels(labels.drop_last());
        let last = labels.last();
        if last.0.spec_is_defined() {
            rest.push((last.0.start as usize, last.0.end as usize, last.1))
        } else {
            rest
        }
    }
}

/// The notes of a report, each introduced by `note: `.
pub open spec fn prefixed_notes(notes: Seq<Seq<char>>) -> Seq<Seq<char>> {
    notes.map_values(|n: Seq<char>| "note: "@ + n)
}

/// The rendering of a worded report.
pub open spec fn emitted_report(file_name: Seq<char>, source: Seq<char>, report: Report) -> Seq<char> {
    emitted_error(file_name, source, report.message, defined_labels(report.labels), prefixed_notes(report.notes))
}

/// The rendering of an error by its description alone.
pub open spec fn emitted_description<'a>(file_name: Seq<char>, source: Seq<char>, e: Error<'a>) -> Seq<char> {
    emitted_error(file_name, source, e.display(), Seq::empty(), Seq::empty())
}

/// The renderings of several errors, each followed by a newline.
pub open spec fn emitted_descriptions<'a>(file_name: Seq<char>, source: Seq<char>, errors: Seq<Error<'a>>) -> Seq<char> {
    each_line(errors.map_values(|e: Error<'a>| emitted_description(file_name, source, e)))
}

impl<'a> Error<'a> {
    /// Renders the error's description as a diagnostic on a file named
    /// `path`. The description carries no label, so the text is the same
    /// whatever the file's name and source.
    pub fn emit_to_string_with_path(&self, source: &str, path: &str) -> (r: String)
        ensures
            r@ == emitted_description(path@, source@, *self),
            r@ == emitted_description(Seq::empty(), Seq::empty(), *self),
    {
        let diagnostic = Diagnostic { message: self.to_string(), labels: Vec::new(), notes: Vec::new() };
        proof {
            assert(diagnostic_labels_view(diagnostic.labels@) =~= Seq::<(usize, usize, Seq<char>)>::empty());
            assert(strings_view(diagnostic.notes@) =~= Seq::<Seq<char>>::empty());
        }
        emit_error(path, source, &diagnostic)
    }

    /// Renders the error's description as a diagnostic on a file named
    /// `wgsl`.
    pub fn emit_to_string(&self, source: &str) -> (r: String)
        ensures
            r@ == emitted_description("wgsl"@, source@, *self),
            r@ == emitted_description(Seq::empty(), Seq::empty(), *self),
    {
        self.emit_to_string_with_path(source, "wgsl")
    }
}

impl<'a> ParseError<'a> {
    /// The report can be rendered: no label of a single report starts at
    /// `usize::MAX`.
    pub open spec fn renderable(&self) -> bool {
        match self {
            ParseError::Single { labels, .. } =>
                forall|i: int| 0 <= i < labels@.len() ==> (labels@[i].0.start as int) < usize::MAX,
            ParseError::Multiple(_) => true,
        }
    }

    /// The diagnostic of the report: the message; the labels with a defined
    /// span, at their byte ranges; the notes, each introduced by `note: `.
    /// Several errors give a diagnostic with the message
    /// `Multiple parse errors` and nothing else.
    pub fn diagnostic(&self) -> (d: Diagnostic)
        ensures
            match self@ {
                ParseErrorView::Single(report) => {
                    &&& d.message@ == report.message
                    &&& diagnostic_labels_view(d.labels@) == defined_labels(report.labels)
                    &&& strings_view(d.notes@) == prefixed_notes(report.notes)
                },
                ParseErrorView::Multiple(_) => {
                    &&& d.message@ == "Multiple parse errors"@
                    &&& d.labels@.len() == 0
                    &&& d.notes@.len() == 0
                },
            },
            self.renderable() ==> forall|i: int| 0 <= i < d.labels@.len() ==> d.labels@[i].0.start < usize::MAX,
    {
        match self {
            ParseError::Single { message, labels, notes } => {
                let mut out_labels: Vec<(core::ops::Range<usize>, String)> = Vec::new();
                let mut i: usize = 0;
                while i < labels.len()
                    invariant
                        i <= labels@.len(),
                        diagnostic_labels_view(out_labels@) == defined_labels(labels_view(labels@.subrange(0, i as int))),
                        self.renderable() ==> forall|j: int| 0 <= j < out_labels@.len() ==> out_labels@[j].0.start < usize::MAX,
                        self.renderable() ==> forall|k: int| 0 <= k < labels@.len() ==> (labels@[k].0.start as int) < usize::MAX,
                    decreases labels@.len() - i,
                {
                    let ghost before = out_labels@;
                    proof {
                        let prev = labels_view(labels@.subrange(0, i as int));
                        let next = labels_view(labels@.subrange(0, i + 1));
                        assert(labels@.subrange(0, i + 1) =~= labels@.subrange(0, i as int).push(labels@[i as int]));
                        assert(next =~= prev.push((labels@[i as int].0, labels@[i as int].1@)));
                        assert(next.drop_last() =~= prev);
                    }
                    match labels[i].0.to_range() {
                        Some(range) => {
                            out_labels.push((range, lit(labels[i].1.as_str())));
                            proof {
                                assert(diagnostic_labels_view(out_labels@) =~= diagnostic_labels_view(before).push(
                                    (labels@[i as int].0.start as usize, labels@[i as int].0.end as usize, labels@[i as int].1@)));
                                if self.renderable() {
                                    assert((labels@[i as int].0.start as int) < usize::MAX);
                                    assert forall|j: int| 0 <= j < out_labels@.len() implies out_labels@[j].0.start < usize::MAX by {
                                        if j < before.len() {
                                            assert(out_labels@[j] == before[j]);
                                        }
                                    }
                                }
                            }
                        },
                        None => {},
                    }
                    i = i + 1;
                }
                proof {
                    assert(labels@.subrange(0, i as int) =~= labels@);
                }
                let mut out_notes: Vec<String> = Vec::new();
                let mut n: usize = 0;
                while n < notes.len()
                    invariant
                        n <= notes@.len(),
                        strings_view(out_notes@) =~= prefixed_notes(strings_view(notes@.subrange(0, n as int))),
                    decreases notes@.len() - n,
                {
                    let ghost before = out_notes@;
                    let mut note = lit("note: ");
                    note.append(notes[n].as_str());
                    out_notes.push(note);
                    proof {
                        assert(notes@.subrange(0, n + 1) =~= notes@.subrange(0, n as int).push(notes@[n as int]));
                        assert(strings_view(out_notes@) =~= strings_view(before).push("note: "@ + notes@[n as int]@));
                        assert(prefixed_notes(strings_view(notes@.subrange(0, n + 1))) =~=
                            prefixed_notes(strings_view(notes@.subrange(0, n as int))).push("note: "@ + notes@[n as int]@));
                    }
                    n = n + 1;
                }
                proof {
                    assert(notes@.subrange(0, n as int) =~= notes@);
                }
                Diagnostic { message: lit(message.as_str()), labels: out_labels, notes: out_notes }
            },
            ParseError::Multiple(_) => Diagnostic {
                message: lit("Multiple parse errors"),
                labels: Vec::new(),
                notes: Vec::new(),
            },
        }
    }

    /// The rendering of the report on a file named `path`: a single report
    /// as its diagnostic; several errors as the rendering of each one's
    /// description, each followed by a newline.
    pub open spec fn emitted(&self, source: Seq<char>, path: Seq<char>) -> Seq<char> {
        match self@ {
            ParseErrorView::Single(report) => emitted_report(path, source, report),
            ParseErrorView::Multiple(errors) => emitted_descriptions(path, source, errors),
        }
    }

    /// The report marks no position in the source: none of its labels has
    /// a defined span (several errors carry no labels at all).
    pub open spec fn marks_no_position(&self) -> bool {
        match self@ {
            ParseErrorView::Single(report) => defined_labels(report.labels).len() == 0,
            ParseErrorView::Multiple(_) => true,
        }
    }

    /// Emits a summary of the error to a string, naming the file `path`. A
    /// report that marks no position renders the same whatever the file's
    /// name and source.
    pub fn emit_to_string_with_path(&self, source: &str, path: &str) -> (r: String)
        requires
            self.renderable(),
        ensures
            r@ == self.emitted(source@, path@),
            self.marks_no_position() ==> r@ == self.emitted(Seq::empty(), Seq::empty()),
    {
        match self {
            ParseError::Single { .. } => {
                let diagnostic = self.diagnostic();
                emit_error(path, source, &diagnostic)
            },
            ParseError::Multiple(errors) => {
                let mut parts: Vec<String> = Vec::new();
                let mut i: usize = 0;
                while i < errors.len()
                    invariant
                        i <= errors@.len(),
                        strings_view(parts@) =~= unboxed(errors@.subrange(0, i as int)).map_values(
                            |e: Error<'a>| emitted_description(path@, source@, e)),
                        strings_view(parts@) =~= unboxed(errors@.subrange(0, i as int)).map_values(
                            |e: Error<'a>| emitted_description(Seq::empty(), Seq::empty(), e)),
                    decreases errors@.len() - i,
                {
                    let ghost before = parts@;
                    parts.push(errors[i].emit_to_string_with_path(source, path));
                    proof {
                        assert(errors@.subrange(0, i + 1) =~= errors@.subrange(0, i as int).push(errors@[i as int]));
                        assert(unboxed(errors@.subrange(0, i + 1)) =~= unboxed(errors@.subrange(0, i as int)).push(*errors@[i as int]));
                        assert(strings_view(parts@) =~= strings_view(before).push(emitted_description(path@, source@, *errors@[i as int])));
                        assert(strings_view(parts@) =~= strings_view(before).push(emitted_description(Seq::empty(), Seq::empty(), *errors@[i as int])));
                    }
                    i = i + 1;
                }
                proof {
                    assert(errors@.subrange(0, i as int) =~= errors@);
                }
                lines_joined(&parts)
            },
        }
    }

    /// Emits a summary of the error to a string, naming the file `wgsl`. A
    /// report that marks no position renders the same whatever the source.
    pub fn emit_to_string(&self, source: &str) -> (r: String)
        requires
            self.renderable(),
        ensures
            r@ == self.emitted(source@, "wgsl"@),
            self.marks_no_position() ==> r@ == self.emitted(Seq::empty(), Seq::empty()),
    {
        match self {
            ParseError::Single { .. } => self.emit_to_string_with_path(source, "wgsl"),
            ParseError::Multiple(errors) => {
                let mut parts: Vec<String> = Vec::new();
                let mut i: usize = 0;
                while i < errors.len()
                    invariant
                        i <= errors@.len(),
                        strings_view(parts@) =~= unboxed(errors@.subrange(0, i as int)).map_values(
                            |e: Error<'a>| emitted_description("wgsl"@, source@, e)),
                        strings_view(parts@) =~= unboxed(errors@.subrange(0, i as int)).map_values(
                            |e: Error<'a>| emitted_description(Seq::empty(), Seq::empty(), e)),
                    decreases errors@.len() - i,
                {
                    let ghost before = parts@;
                    parts.push(errors[i].emit_to_string(source));
                    proof {
                        assert(errors@.subrange(0, i + 1) =~= errors@.subrange(0, i as int).push(errors@[i as int]));
                        assert(unboxed(errors@.subrange(0, i + 1)) =~= unboxed(errors@.subrange(0, i as int)).push(*errors@[i as int]));
                        assert(strings_view(parts@) =~= strings_view(before).push(emitted_description("wgsl"@, source@, *errors@[i as int])));
                        assert(strings_view(parts@) =~= strings_view(before).push(emitted_description(Seq::empty(), Seq::empty(), *errors@[i as int])));
                    }
                    i = i + 1;
                }
                proof {
                    assert(errors@.subrange(0, i as int) =~= errors@);
                }
                lines_joined(&parts)
            },
        }
    }
}

} // verus!
