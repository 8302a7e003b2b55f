//! The values that WGSL front-end errors carry: tokens, scalar types,
//! extension kinds and the payloads of the larger error variants.

use vstd::prelude::*;
use crate::span::Span;

verus! {

/// Errors in numeric literals.
#[derive(Clone, Copy, Debug, PartialEq, Eq, Structural)]
pub enum NumberError {
    Invalid,
    NotRepresentable,
}

/// The value of an integer literal token. Literals of floating-point type
/// are not carried.
#[derive(Clone, Copy, Debug, PartialEq, Eq, Structural)]
pub enum Number {
    AbstractInt(i64),
    I32(i32),
    U32(u32),
    I64(i64),
    U64(u64),
}

/// A token of the WGSL lexer.
#[derive(Clone, Copy, Debug, PartialEq, Eq)]
pub enum Token<'a> {
    Separator(char),
    Paren(char),
    Attribute,
    Number(Result<Number, NumberError>),
    Word(&'a str),
    Operation(char),
    LogicalOperation(char),
    ShiftOperation(char),
    AssignmentOperation(char),
    IncrementOperation,
    DecrementOperation,
    Arrow,
    Unknown(char),
    Trivia,
    DocComment(&'a str),
    ModuleDocComment(&'a str),
    End,
}

/// What the parser expected where it found something else.
#[derive(Clone, Copy, Debug, PartialEq, Eq)]
pub enum ExpectedToken<'a> {
    Token(Token<'a>),
    Identifier,
    AfterIdentListComma,
    AfterIdentListArg,
    /// Expected: constant, parenthesized expression, identifier
    PrimaryExpression,
    /// Expected: assignment, increment/decrement expression
    Assignment,
    /// Expected: 'case', 'default', '}'
    SwitchItem,
    /// Expected: ',', ')'
    WorkgroupSizeSeparator,
    /// Expected: 'struct', 'let', 'var', 'type', ';', 'fn', eof
    GlobalItem,
    /// Expected a type.
    Type,
    /// Access of `var`, `let`, `const`.
    Variable,
    /// Access of a function
    Function,
    /// The `diagnostic` identifier of the `@diagnostic(…)` attribute.
    DiagnosticAttribute,
}

/// Why the left-hand side of an assignment is invalid.
#[derive(Clone, Copy, Debug, PartialEq, Eq, Structural)]
pub enum InvalidAssignmentType {
    Other,
    Swizzle,
    ImmutableBinding(Span),
}

/// The kind of a scalar type.
#[derive(Clone, Copy, Debug, PartialEq, Eq, Structural)]
pub enum ScalarKind {
    Sint,
    Uint,
    Float,
    Bool,
    AbstractInt,
    AbstractFloat,
}

/// A scalar type: its kind and its width in bytes.
#[derive(Clone, Copy, Debug, PartialEq, Eq, Structural)]
pub struct Scalar {
    pub kind: ScalarKind,
    pub width: u8,
}

/// A (non-zero) alignment in bytes.
#[derive(Clone, Copy, Debug, PartialEq, Eq, Structural)]
pub struct Alignment(pub u32);

/// An error of type resolution, as far as error reporting reads it: its
/// message (what `Display` prints for it) and what `Debug` prints for it.
#[derive(Clone, Debug)]
pub struct ResolveError {
    pub message: String,
    pub debug: String,
}

/// An error of constant evaluation, as far as error reporting reads it:
/// its message (what `Display` prints for it) and what `Debug` prints for
/// it.
#[derive(Clone, Debug)]
pub struct ConstantEvaluatorError {
    pub message: String,
    pub debug: String,
}

/// An `enable` extension that the front end implements.
#[derive(Clone, Copy, Debug, PartialEq, Eq)]
pub struct ImplementedEnableExtension {
    /// The name of the extension's kind, which is what `Debug` prints.
    pub name: &'static str,
    /// The name by which WGSL source enables it.
    pub ident: &'static str,
}

/// An `enable` extension that the front end does not implement yet.
#[derive(Clone, Copy, Debug, PartialEq, Eq)]
pub struct UnimplementedEnableExtension {
    /// The name of the extension's kind, which is what `Debug` prints.
    pub name: &'static str,
    /// The name by which WGSL source enables it.
    pub ident: &'static str,
    /// The number of the issue that tracks its implementation.
    pub tracking_issue_num: u32,
}

/// An `enable` extension.
#[derive(Clone, Copy, Debug, PartialEq, Eq)]
pub enum EnableExtension {
    Implemented(ImplementedEnableExtension),
    Unimplemented(UnimplementedEnableExtension),
}

/// A language extension that the front end does not implement yet.
#[derive(Clone, Copy, Debug, PartialEq, Eq)]
pub struct UnimplementedLanguageExtension {
    /// The name of the extension's kind, which is what `Debug` prints.
    pub name: &'static str,
    /// The name by which WGSL source requires it.
    pub ident: &'static str,
    /// The number of the issue that tracks its implementation.
    pub tracking_issue_num: u32,
}

/// Two `diagnostic(…)` rules for the same triggering rule that conflict.
#[derive(Clone, Copy, Debug, PartialEq, Eq)]
pub struct ConflictingDiagnosticRuleError {
    pub triggering_rule_spans: [Span; 2],
}

/// Where a `@diagnostic(…)` attribute was found that is not supported there.
#[derive(Clone, Copy, Debug)]
pub enum DiagnosticAttributeNotSupportedPosition {
    SemicolonInModulePosition,
    Other { display_plural: &'static str },
}

/// An unsupported position described by its plural display name.
impl From<&'static str> for DiagnosticAttributeNotSupportedPosition {
    fn from(display_plural: &'static str) -> (r: Self) {
        DiagnosticAttributeNotSupportedPosition::Other { display_plural }
    }
}

impl vstd::std_specs::convert::FromSpecImpl<&'static str> for DiagnosticAttributeNotSupportedPosition {
    open spec fn obeys_from_spec() -> bool {
        true
    }

    open spec fn from_spec(display_plural: &'static str) -> Self {
        DiagnosticAttributeNotSupportedPosition::Other { display_plural }
    }
}

/// A value whose type does not convert automatically to the type required.
#[derive(Clone, Debug)]
pub struct AutoConversionError {
    pub dest_span: Span,
    pub dest_type: String,
    pub source_span: Span,
    pub source_type: String,
}

/// A value whose elements do not convert automatically to the scalar
/// required.
#[derive(Clone, Debug)]
pub struct AutoConversionLeafScalarError {
    pub dest_span: Span,
    pub dest_scalar: String,
    pub source_span: Span,
    pub source_type: String,
}

/// An expression that could not be given a concrete type.
#[derive(Clone, Debug)]
pub struct ConcretizationFailedError {
    pub expr_span: Span,
    pub expr_type: String,
    pub scalar: String,
    pub inner: ConstantEvaluatorError,
}

} // verus!
