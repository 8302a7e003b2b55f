//! The WGSL front end's entry point: its options and the conversion of
//! what its parsing and lowering stages found into a single result.

use vstd::prelude::*;
use crate::error::{Error, ParseError, ParseErrorView, unboxed};

verus! {

/// Options for the WGSL front end.
#[derive(Clone, Copy, Debug, PartialEq, Eq, Structural)]
pub struct Options {
    /// Whether doc comments are kept in the module.
    pub parse_doc_comments: bool,
}

impl Options {
    /// The default options: doc comments are not kept.
    pub fn new() -> (o: Options)
        ensures
            o == (Options { parse_doc_comments: false }),
    {
        Options { parse_doc_comments: false }
    }
}

/// The WGSL front end.
pub struct Frontend {
    options: Options,
}

impl Frontend {
    /// The options that the front end parses with.
    pub closed spec fn spec_options(&self) -> Options {
        self.options
    }

    /// A front end with the default options.
    pub fn new() -> (f: Frontend)
        ensures
            f.spec_options() == (Options { parse_doc_comments: false }),
    {
        Frontend { options: Options::new() }
    }

    /// A front end with the given options.
    pub fn new_with_options(options: Options) -> (f: Frontend)
        ensures
            f.spec_options() == options,
    {
        Frontend { options }
    }

    /// The options that the front end parses with.
    pub fn options(&self) -> (o: Options)
        ensures
            o == self.spec_options(),
    {
        self.options
    }

    /// The result of parsing, from what the parsing and lowering stages
    /// produced: the module they built, or all the errors they found,
    /// reported together as one [`ParseError::Multiple`].
    pub fn parse<'a, M>(&mut self, stages: Result<M, Vec<Box<Error<'a>>>>) -> (r: Result<M, ParseError<'a>>)
        ensures
            final(self).spec_options() == old(self).spec_options(),
            match stages {
                Ok(module) => r == Ok::<M, ParseError<'a>>(module),
                Err(errors) => r matches Err(e) && e@ == ParseErrorView::Multiple(unboxed(errors@)),
            },
    {
        match stages {
            Ok(module) => Ok(module),
            Err(errors) => Err(ParseError::Multiple(errors)),
        }
    }
}

} // verus!
