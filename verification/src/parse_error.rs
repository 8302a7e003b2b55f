//! What a [`ParseError`] reports: its message, its labels, the location it
//! points at and its one-line description.

use vstd::prelude::*;
use vstd::string::*;
use vstd::utf8::is_char_boundary;
use crate::error::{Error, ParseError, ParseErrorView, labels_view, unboxed};
use crate::span::{Span, SourceLocation, location_fits};
use crate::text::{lit, each_line, lines_joined};
use crate::error::strings_view;

verus! {

/// The texts of labels borrowed as string slices.
pub open spec fn borrowed_labels_view(labels: Seq<(Span, &str)>) -> Seq<(Span, Seq<char>)> {
    labels.map_values(|l: (Span, &str)| (l.0, l.1@))
}

/// The descriptions of several errors, each followed by a newline.
pub open spec fn displayed_errors<'a>(errors: Seq<Error<'a>>) -> Seq<char> {
    each_line(errors.map_values(|e: Error<'a>| e.display()))
}

/// The message that reports several errors at once.
pub open spec fn multiple_message() -> Seq<char> {
    "Multiple parse errors"@
}

impl<'a> ParseError<'a> {
    /// The message of the report.
    pub open spec fn spec_message(&self) -> Seq<char> {
        match self@ {
            ParseErrorView::Single(report) => report.message,
            ParseErrorView::Multiple(_) => multiple_message(),
        }
    }

    /// The labels of the report; several errors carry none.
    pub open spec fn spec_labels(&self) -> Seq<(Span, Seq<char>)> {
        match self@ {
            ParseErrorView::Single(report) => report.labels,
            ParseErrorView::Multiple(_) => Seq::empty(),
        }
    }

    /// The labelled spans with their texts.
    pub fn labels(&self) -> (r: Vec<(Span, &str)>)
        ensures
            borrowed_labels_view(r@) == self.spec_labels(),
    {
        let mut r: Vec<(Span, &str)> = Vec::new();
        match self {
            ParseError::Single { labels, .. } => {
                let mut i: usize = 0;
                while i < labels.len()
                    invariant
                        i <= labels@.len(),
                        borrowed_labels_view(r@) =~= labels_view(labels@.subrange(0, i as int)),
                    decreases labels@.len() - i,
                {
                    let ghost before = r@;
                    r.push((labels[i].0, labels[i].1.as_str()));
                    proof {
                        assert(labels@.subrange(0, i + 1) =~= labels@.subrange(0, i as int).push(labels@[i as int]));
                        assert(borrowed_labels_view(r@) =~= borrowed_labels_view(before).push((labels@[i as int].0, labels@[i as int].1@)));
                        assert(labels_view(labels@.subrange(0, i + 1)) =~=
                            labels_view(labels@.subrange(0, i as int)).push((labels@[i as int].0, labels@[i as int].1@)));
                    }
                    i = i + 1;
                }
                proof {
                    assert(labels@.subrange(0, i as int) =~= labels@);
                }
            },
            ParseError::Multiple(_) => {
                proof {
                    assert(borrowed_labels_view(r@) =~= Seq::<(Span, Seq<char>)>::empty());
                }
            },
        }
        r
    }

    /// The message of the report.
    pub fn message(&self) -> (r: &str)
        ensures
            r@ == self.spec_message(),
    {
        match self {
            ParseError::Single { message, .. } => message.as_str(),
            ParseError::Multiple(_) => "Multiple parse errors",
        }
    }

    /// The location of the report can be computed in source bytes `src`:
    /// where the report has a first label, its span is ordered, starts on a
    /// character boundary and its location fits in `u32`.
    pub open spec fn locatable(&self, src: Seq<u8>) -> bool {
        self.spec_labels().len() > 0 ==> {
            let first = self.spec_labels()[0].0;
            &&& first.start <= first.end
            &&& is_char_boundary(src, first.start as int)
            &&& location_fits(src, first)
        }
    }

    /// The location of the first label; `None` where there is no label.
    pub open spec fn spec_location(&self, src: Seq<u8>) -> Option<SourceLocation> {
        if self.spec_labels().len() > 0 {
            Some(self.spec_labels()[0].0.spec_location(src))
        } else {
            None
        }
    }

    /// Returns a [`SourceLocation`] for the first label in the error message.
    pub fn location(&self, source: &str) -> (r: Option<SourceLocation>)
        requires
            self.locatable(source.spec_bytes()),
        ensures
            r == self.spec_location(source.spec_bytes()),
    {
        match self {
            ParseError::Single { labels, .. } => {
                if labels.len() > 0 {
                    Some(labels[0].0.location(source))
                } else {
                    None
                }
            },
            ParseError::Multiple(errors) => {
                if errors.len() > 0 {
                    errors[0].location(source)
                } else {
                    None
                }
            },
        }
    }

    /// The description of the report (its `Display` text): the message of
    /// a single error, or the description of each of several errors
    /// followed by a newline.
    pub open spec fn display(&self) -> Seq<char> {
        match self@ {
            ParseErrorView::Single(report) => report.message,
            ParseErrorView::Multiple(errors) => displayed_errors(errors),
        }
    }

    /// The description of the report (its `Display` text).
    pub fn to_string(&self) -> (r: String)
        ensures
            r@ == self.display(),
    {
        match self {
            ParseError::Single { message, .. } => lit(message.as_str()),
            ParseError::Multiple(errors) => {
                let mut parts: Vec<String> = Vec::new();
                let mut i: usize = 0;
                while i < errors.len()
                    invariant
                        i <= errors@.len(),
                        strings_view(parts@) =~= unboxed(errors@.subrange(0, i as int)).map_values(|e: Error<'a>| e.display()),
                    decreases errors@.len() - i,
                {
                    let ghost before = parts@;
                    parts.push(errors[i].to_string());
                    proof {
                        assert(errors@.subrange(0, i + 1) =~= errors@.subrange(0, i as int).push(errors@[i as int]));
                        assert(unboxed(errors@.subrange(0, i + 1)) =~= unboxed(errors@.subrange(0, i as int)).push(*errors@[i as int]));
                        assert(strings_view(parts@) =~= strings_view(before).push(errors@[i as int].display()));
                    }
                    i = i + 1;
                }
                proof {
                    assert(errors@.subrange(0, i as int) =~= errors@);
                }
                lines_joined(&parts)
            },
        }
    }
}

/// A report of several errors made of them.
impl<'a> From<Vec<Box<Error<'a>>>> for ParseError<'a> {
    fn from(errors: Vec<Box<Error<'a>>>) -> (r: Self) {
        ParseError::Multiple(errors)
    }
}

impl<'a> vstd::std_specs::convert::FromSpecImpl<Vec<Box<Error<'a>>>> for ParseError<'a> {
    open spec fn obeys_from_spec() -> bool {
        true
    }

    open spec fn from_spec(errors: Vec<Box<Error<'a>>>) -> Self {
        ParseError::Multiple(errors)
    }
}

} // verus!
