//! The errors of the WGSL front end and the reports made from them.

use vstd::prelude::*;
use crate::span::{Span, SourceLocation};
use crate::types::{
    Alignment, AutoConversionError, AutoConversionLeafScalarError, ConcretizationFailedError,
    ConflictingDiagnosticRuleError, ConstantEvaluatorError, DiagnosticAttributeNotSupportedPosition,
    EnableExtension, ExpectedToken, InvalidAssignmentType, NumberError, ResolveError, Scalar,
    UnimplementedEnableExtension, UnimplementedLanguageExtension,
};

verus! {

/// `Range::clone` (derived in std) clones both ends. The contract states
/// that each end of the result is a clone of the same end of the argument.
pub assume_specification<Idx: Clone>[ <core::ops::Range<Idx> as Clone>::clone ](
    r: &core::ops::Range<Idx>,
) -> (res: core::ops::Range<Idx>)
    ensures
        cloned(r.start, res.start),
        cloned(r.end, res.end),
;

/// A report of one or several errors, in the form in which the front end
/// hands them to its callers.
#[derive(Clone, Debug)]
pub enum ParseError<'a> {
    /// One error, worded: a message, labelled spans (the first is the
    /// primary one, the others complement it) and notes.
    Single {
        message: String,
        labels: Vec<(Span, String)>,
        notes: Vec<String>,
    },
    /// Several errors, as found.
    Multiple(Vec<Box<Error<'a>>>),
}

/// The content of a single worded error report.
#[verifier::ext_equal]
pub struct Report {
    pub message: Seq<char>,
    pub labels: Seq<(Span, Seq<char>)>,
    pub notes: Seq<Seq<char>>,
}

/// The value of a [`ParseError`].
#[verifier::ext_equal]
pub enum ParseErrorView<'a> {
    Single(Report),
    Multiple(Seq<Error<'a>>),
}

/// The texts of labels.
pub open spec fn labels_view(labels: Seq<(Span, String)>) -> Seq<(Span, Seq<char>)> {
    labels.map_values(|l: (Span, String)| (l.0, l.1@))
}

/// The texts of strings.
pub open spec fn strings_view(strings: Seq<String>) -> Seq<Seq<char>> {
    strings.map_values(|s: String| s@)
}

/// The errors held by boxes.
pub open spec fn unboxed<'a>(errors: Seq<Box<Error<'a>>>) -> Seq<Error<'a>> {
    errors.map_values(|e: Box<Error<'a>>| *e)
}

impl<'a> View for ParseError<'a> {
    type V = ParseErrorView<'a>;

    open spec fn view(&self) -> ParseErrorView<'a> {
        match self {
            ParseError::Single { message, labels, notes } => ParseErrorView::Single(Report {
                message: message@,
                labels: labels_view(labels@),
                notes: strings_view(notes@),
            }),
            ParseError::Multiple(errors) => ParseErrorView::Multiple(unboxed(errors@)),
        }
    }
}


/// An error found while parsing or lowering WGSL source.
#[derive(Clone, Debug)]
pub enum Error<'a> {
    Unexpected(Span, ExpectedToken<'a>),
    UnexpectedComponents(Span),
    UnexpectedOperationInConstContext(Span),
    BadNumber(Span, NumberError),
    BadMatrixScalarKind(Span, Scalar),
    BadAccessor(Span),
    BadTexture(Span),
    BadTypeCast {
        span: Span,
        from_type: String,
        to_type: String,
    },
    NotStorageTexture(Span),
    BadTextureSampleType {
        span: Span,
        scalar: Scalar,
    },
    BadIncrDecrReferenceType(Span),
    InvalidResolve(ResolveError),
    InvalidForInitializer(Span),
    /// A break if appeared outside of a continuing block
    InvalidBreakIf(Span),
    InvalidGatherComponent(Span),
    InvalidConstructorComponentType(Span, i32),
    InvalidIdentifierUnderscore(Span),
    ReservedIdentifierPrefix(Span),
    UnknownAddressSpace(Span),
    RepeatedAttribute(Span),
    UnknownAttribute(Span),
    UnknownBuiltin(Span),
    UnknownAccess(Span),
    UnknownIdent(Span, &'a str),
    UnknownScalarType(Span),
    UnknownType(Span),
    UnknownStorageFormat(Span),
    UnknownConservativeDepth(Span),
    UnknownEnableExtension(Span, &'a str),
    UnknownLanguageExtension(Span, &'a str),
    UnknownDiagnosticRuleName(Span),
    SizeAttributeTooLow(Span, u32),
    AlignAttributeTooLow(Span, Alignment),
    NonPowerOfTwoAlignAttribute(Span),
    InconsistentBinding(Span),
    TypeNotConstructible(Span),
    TypeNotInferable(Span),
    InitializationTypeMismatch {
        name: Span,
        expected: String,
        got: String,
    },
    DeclMissingTypeAndInit(Span),
    MissingAttribute(&'static str, Span),
    InvalidAddrOfOperand(Span),
    InvalidAtomicPointer(Span),
    InvalidAtomicOperandType(Span),
    InvalidRayQueryPointer(Span),
    NotPointer(Span),
    NotReference(&'static str, Span),
    InvalidAssignment {
        span: Span,
        ty: InvalidAssignmentType,
    },
    ReservedKeyword(Span),
    /// Redefinition of an identifier (used for both module-scope and local redefinitions).
    Redefinition {
        /// Span of the identifier in the previous definition.
        previous: Span,
        /// Span of the identifier in the new definition.
        current: Span,
    },
    /// A declaration refers to itself directly.
    RecursiveDeclaration {
        /// The location of the name of the declaration.
        ident: Span,
        /// The point at which it is used.
        usage: Span,
    },
    /// A declaration refers to itself indirectly, through one or more other
    /// definitions.
    CyclicDeclaration {
        /// The location of the name of some declaration in the cycle.
        ident: Span,
        /// The edges of the cycle of references: each `(decl, reference)`
        /// pair says that the declaration named at `decl` uses, at
        /// `reference`, the next declaration in the cycle.
        path: Vec<(Span, Span)>,
    },
    InvalidSwitchSelector {
        span: Span,
    },
    InvalidSwitchCase {
        span: Span,
    },
    SwitchCaseTypeMismatch {
        span: Span,
    },
    CalledEntryPoint(Span),
    WrongArgumentCount {
        span: Span,
        expected: core::ops::Range<u32>,
        found: u32,
    },
    /// No overload of this function accepts this many arguments.
    TooManyArguments {
        /// The name of the function being called.
        function: String,
        /// The function name in the call expression.
        call_span: Span,
        /// The first argument that is unacceptable.
        arg_span: Span,
        /// Maximum number of arguments accepted by any overload of
        /// this function.
        max_arguments: u32,
    },
    /// A value passed to a builtin function has a type that is not
    /// accepted by any overload of the function.
    WrongArgumentType {
        /// The name of the function being called.
        function: String,
        /// The function name in the call expression.
        call_span: Span,
        /// The first argument whose type is unacceptable.
        arg_span: Span,
        /// The index of the first argument whose type is unacceptable.
        arg_index: u32,
        /// That argument's actual type.
        arg_ty: String,
        /// The set of argument types that would have been accepted for
        /// this argument, given the prior arguments.
        allowed: Vec<String>,
    },
    /// A value passed to a builtin function has a type that is not
    /// accepted, given the earlier arguments' types.
    InconsistentArgumentType {
        /// The name of the function being called.
        function: String,
        /// The function name in the call expression.
        call_span: Span,
        /// The first unacceptable argument.
        arg_span: Span,
        /// The index of the first unacceptable argument.
        arg_index: u32,
        /// The actual type of the first unacceptable argument.
        arg_ty: String,
        /// The prior argument whose type made the `arg_span` argument
        /// unacceptable.
        inconsistent_span: Span,
        /// The index of the `inconsistent_span` argument.
        inconsistent_index: u32,
        /// The type of the `inconsistent_span` argument.
        inconsistent_ty: String,
        /// The types that would have been accepted instead of the
        /// first unacceptable argument.
        allowed: Vec<String>,
    },
    FunctionReturnsVoid(Span),
    FunctionMustUseUnused(Span),
    FunctionMustUseReturnsVoid(Span, Span),
    InvalidWorkGroupUniformLoad(Span),
    Internal(&'static str),
    ExpectedConstExprConcreteIntegerScalar(Span),
    ExpectedNonNegative(Span),
    ExpectedPositiveArrayLength(Span),
    MissingWorkgroupSize(Span),
    ConstantEvaluatorError(Box<ConstantEvaluatorError>, Span),
    AutoConversion(Box<AutoConversionError>),
    AutoConversionLeafScalar(Box<AutoConversionLeafScalarError>),
    ConcretizationFailed(Box<ConcretizationFailedError>),
    ExceededLimitForNestedBraces {
        span: Span,
        limit: u8,
    },
    PipelineConstantIDValue(Span),
    NotBool(Span),
    ConstAssertFailed(Span),
    DirectiveAfterFirstGlobalDecl {
        directive_span: Span,
    },
    EnableExtensionNotYetImplemented {
        kind: UnimplementedEnableExtension,
        span: Span,
    },
    EnableExtensionNotEnabled {
        kind: EnableExtension,
        span: Span,
    },
    LanguageExtensionNotYetImplemented {
        kind: UnimplementedLanguageExtension,
        span: Span,
    },
    DiagnosticInvalidSeverity {
        severity_control_name_span: Span,
    },
    DiagnosticDuplicateTriggeringRule(ConflictingDiagnosticRuleError),
    DiagnosticAttributeNotYetImplementedAtParseSite {
        site_name_plural: &'static str,
        spans: Vec<Span>,
    },
    DiagnosticAttributeNotSupported {
        on_what: DiagnosticAttributeNotSupportedPosition,
        spans: Vec<Span>,
    },
    SelectUnexpectedArgumentType {
        arg_span: Span,
        arg_type: String,
    },
    SelectRejectAndAcceptHaveNoCommonType {
        reject_span: Span,
        reject_type: String,
        accept_span: Span,
        accept_type: String,
    },
}

/// Conflicting `diagnostic(…)` rules are an error of their own.
impl<'a> From<ConflictingDiagnosticRuleError> for Error<'a> {
    fn from(value: ConflictingDiagnosticRuleError) -> (r: Self) {
        Error::DiagnosticDuplicateTriggeringRule(value)
    }
}

impl<'a> vstd::std_specs::convert::FromSpecImpl<ConflictingDiagnosticRuleError> for Error<'a> {
    open spec fn obeys_from_spec() -> bool {
        true
    }

    open spec fn from_spec(value: ConflictingDiagnosticRuleError) -> Self {
        Error::DiagnosticDuplicateTriggeringRule(value)
    }
}

impl<'a> Error<'a> {
    /// The span that the error is reported at, for every variant that
    /// carries one: the span its report labels first. Type-resolution and
    /// internal errors carry none, nor does a `@diagnostic(…)` rejection
    /// that names no span.
    pub open spec fn spec_span(&self) -> Option<Span> {
        match *self {
            Error::Unexpected(span, _) => Some(span),
            Error::UnexpectedComponents(span) => Some(span),
            Error::UnexpectedOperationInConstContext(span) => Some(span),
            Error::BadNumber(span, _) => Some(span),
            Error::BadMatrixScalarKind(span, _) => Some(span),
            Error::BadAccessor(span) => Some(span),
            Error::BadTexture(span) => Some(span),
            Error::NotStorageTexture(span) => Some(span),
            Error::BadIncrDecrReferenceType(span) => Some(span),
            Error::InvalidForInitializer(span) => Some(span),
            Error::InvalidBreakIf(span) => Some(span),
            Error::InvalidGatherComponent(span) => Some(span),
            Error::InvalidConstructorComponentType(span, _) => Some(span),
            Error::InvalidIdentifierUnderscore(span) => Some(span),
            Error::ReservedIdentifierPrefix(span) => Some(span),
            Error::UnknownAddressSpace(span) => Some(span),
            Error::RepeatedAttribute(span) => Some(span),
            Error::UnknownAttribute(span) => Some(span),
            Error::UnknownBuiltin(span) => Some(span),
            Error::UnknownAccess(span) => Some(span),
            Error::UnknownIdent(span, _) => Some(span),
            Error::UnknownScalarType(span) => Some(span),
            Error::UnknownType(span) => Some(span),
            Error::UnknownStorageFormat(span) => Some(span),
            Error::UnknownConservativeDepth(span) => Some(span),
            Error::UnknownEnableExtension(span, _) => Some(span),
            Error::UnknownLanguageExtension(span, _) => Some(span),
            Error::UnknownDiagnosticRuleName(span) => Some(span),
            Error::SizeAttributeTooLow(span, _) => Some(span),
            Error::AlignAttributeTooLow(span, _) => Some(span),
            Error::NonPowerOfTwoAlignAttribute(span) => Some(span),
            Error::InconsistentBinding(span) => Some(span),
            Error::TypeNotConstructible(span) => Some(span),
            Error::TypeNotInferable(span) => Some(span),
            Error::DeclMissingTypeAndInit(span) => Some(span),
            Error::MissingAttribute(_, span) => Some(span),
            Error::InvalidAddrOfOperand(span) => Some(span),
            Error::InvalidAtomicPointer(span) => Some(span),
            Error::InvalidAtomicOperandType(span) => Some(span),
            Error::InvalidRayQueryPointer(span) => Some(span),
            Error::NotPointer(span) => Some(span),
            Error::NotReference(_, span) => Some(span),
            Error::InvalidAssignment { span, .. } => Some(span),
            Error::ReservedKeyword(span) => Some(span),
            Error::Redefinition { previous, .. } => Some(previous),
            Error::RecursiveDeclaration { ident, .. } => Some(ident),
            Error::CyclicDeclaration { ident, .. } => Some(ident),
            Error::InvalidSwitchSelector { span } => Some(span),
            Error::InvalidSwitchCase { span } => Some(span),
            Error::SwitchCaseTypeMismatch { span } => Some(span),
            Error::CalledEntryPoint(span) => Some(span),
            Error::WrongArgumentCount { span, .. } => Some(span),
            Error::TooManyArguments { call_span, .. } => Some(call_span),
            Error::WrongArgumentType { call_span, .. } => Some(call_span),
            Error::FunctionReturnsVoid(span) => Some(span),
            Error::ExpectedConstExprConcreteIntegerScalar(span) => Some(span),
            Error::ExpectedNonNegative(span) => Some(span),
            Error::ExpectedPositiveArrayLength(span) => Some(span),
            Error::MissingWorkgroupSize(span) => Some(span),
            Error::ExceededLimitForNestedBraces { span, .. } => Some(span),
            Error::PipelineConstantIDValue(span) => Some(span),
            Error::EnableExtensionNotYetImplemented { span, .. } => Some(span),
            Error::EnableExtensionNotEnabled { span, .. } => Some(span),
            Error::LanguageExtensionNotYetImplemented { span, .. } => Some(span),
            Error::DiagnosticInvalidSeverity { severity_control_name_span } => Some(severity_control_name_span),
            Error::SelectUnexpectedArgumentType { arg_span, .. } => Some(arg_span),
            Error::SelectRejectAndAcceptHaveNoCommonType { reject_span, .. } => Some(reject_span),
            Error::BadTypeCast { span, .. } => Some(span),
            Error::BadTextureSampleType { span, .. } => Some(span),
            Error::InitializationTypeMismatch { name, .. } => Some(name),
            Error::InconsistentArgumentType { call_span, .. } => Some(call_span),
            Error::FunctionMustUseUnused(span) => Some(span),
            Error::FunctionMustUseReturnsVoid(span, _) => Some(span),
            Error::InvalidWorkGroupUniformLoad(span) => Some(span),
            Error::ConstantEvaluatorError(_, span) => Some(span),
            Error::AutoConversion(err) => Some(err.dest_span),
            Error::AutoConversionLeafScalar(err) => Some(err.dest_span),
            Error::ConcretizationFailed(err) => Some(err.expr_span),
            Error::NotBool(span) => Some(span),
            Error::ConstAssertFailed(span) => Some(span),
            Error::DirectiveAfterFirstGlobalDecl { directive_span } => Some(directive_span),
            Error::DiagnosticDuplicateTriggeringRule(e) => Some(e.triggering_rule_spans[0]),
            Error::DiagnosticAttributeNotYetImplementedAtParseSite { spans, .. } =>
                if spans@.len() > 0 { Some(spans@[0]) } else { None },
            Error::DiagnosticAttributeNotSupported { spans, .. } =>
                if spans@.len() > 0 { Some(spans@[0]) } else { None },
            Error::InvalidResolve(_) | Error::Internal(_) => None,
        }
    }

    /// Returns a reference to the span if present, otherwise None.
    pub fn span(&self) -> (r: Option<&Span>)
        ensures
            match r {
                Some(s) => self.spec_span() == Some(*s),
                None => self.spec_span() is None,
            },
    {
        match self {
            Error::Unexpected(span, _)
            | Error::UnexpectedComponents(span)
            | Error::UnexpectedOperationInConstContext(span)
            | Error::BadNumber(span, _)
            | Error::BadMatrixScalarKind(span, _)
            | Error::BadAccessor(span)
            | Error::BadTexture(span)
            | Error::NotStorageTexture(span)
            | Error::BadIncrDecrReferenceType(span)
            | Error::InvalidForInitializer(span)
            | Error::InvalidBreakIf(span)
            | Error::InvalidGatherComponent(span)
            | Error::InvalidConstructorComponentType(span, _)
            | Error::InvalidIdentifierUnderscore(span)
            | Error::ReservedIdentifierPrefix(span)
            | Error::UnknownAddressSpace(span)
            | Error::RepeatedAttribute(span)
            | Error::UnknownAttribute(span)
            | Error::UnknownBuiltin(span)
            | Error::UnknownAccess(span)
            | Error::UnknownIdent(span, _)
            | Error::UnknownScalarType(span)
            | Error::UnknownType(span)
            | Error::UnknownStorageFormat(span)
            | Error::UnknownConservativeDepth(span)
            | Error::UnknownEnableExtension(span, _)
            | Error::UnknownLanguageExtension(span, _)
            | Error::UnknownDiagnosticRuleName(span)
            | Error::SizeAttributeTooLow(span, _)
            | Error::AlignAttributeTooLow(span, _)
            | Error::NonPowerOfTwoAlignAttribute(span)
            | Error::InconsistentBinding(span)
            | Error::TypeNotConstructible(span)
            | Error::TypeNotInferable(span)
            | Error::DeclMissingTypeAndInit(span)
            | Error::MissingAttribute(_, span)
            | Error::InvalidAddrOfOperand(span)
            | Error::InvalidAtomicPointer(span)
            | Error::InvalidAtomicOperandType(span)
            | Error::InvalidRayQueryPointer(span)
            | Error::NotPointer(span)
            | Error::NotReference(_, span)
            | Error::InvalidAssignment { span, .. }
            | Error::ReservedKeyword(span)
            | Error::Redefinition { previous: span, .. }
            | Error::RecursiveDeclaration { ident: span, .. }
            | Error::CyclicDeclaration { ident: span, .. }
            | Error::InvalidSwitchSelector { span }
            | Error::InvalidSwitchCase { span }
            | Error::SwitchCaseTypeMismatch { span }
            | Error::CalledEntryPoint(span)
            | Error::WrongArgumentCount { span, .. }
            | Error::TooManyArguments { call_span: span, .. }
            | Error::WrongArgumentType { call_span: span, .. }
            | Error::FunctionReturnsVoid(span)
            | Error::ExpectedConstExprConcreteIntegerScalar(span)
            | Error::ExpectedNonNegative(span)
            | Error::ExpectedPositiveArrayLength(span)
            | Error::MissingWorkgroupSize(span)
            | Error::ExceededLimitForNestedBraces { span, .. }
            | Error::PipelineConstantIDValue(span)
            | Error::EnableExtensionNotYetImplemented { span, .. }
            | Error::EnableExtensionNotEnabled { span, .. }
            | Error::LanguageExtensionNotYetImplemented { span, .. }
            | Error::DiagnosticInvalidSeverity { severity_control_name_span: span }
            | Error::SelectUnexpectedArgumentType { arg_span: span, .. }
            | Error::SelectRejectAndAcceptHaveNoCommonType { reject_span: span, .. }
            | Error::BadTypeCast { span, .. }
            | Error::BadTextureSampleType { span, .. }
            | Error::InitializationTypeMismatch { name: span, .. }
            | Error::InconsistentArgumentType { call_span: span, .. }
            | Error::FunctionMustUseUnused(span)
            | Error::FunctionMustUseReturnsVoid(span, _)
            | Error::InvalidWorkGroupUniformLoad(span)
            | Error::ConstantEvaluatorError(_, span)
            | Error::NotBool(span)
            | Error::ConstAssertFailed(span)
            | Error::DirectiveAfterFirstGlobalDecl { directive_span: span } => Some(span),
            Error::AutoConversion(err) => Some(&err.dest_span),
            Error::AutoConversionLeafScalar(err) => Some(&err.dest_span),
            Error::ConcretizationFailed(err) => Some(&err.expr_span),
            Error::DiagnosticDuplicateTriggeringRule(e) => Some(&e.triggering_rule_spans[0]),
            Error::DiagnosticAttributeNotYetImplementedAtParseSite { spans, .. }
            | Error::DiagnosticAttributeNotSupported { spans, .. } => {
                if spans.len() > 0 {
                    Some(&spans[0])
                } else {
                    None
                }
            },
            Error::InvalidResolve(_) | Error::Internal(_) => None,
        }
    }

    /// The source location of the error; errors do not report one by
    /// themselves, so this is always `None`.
    pub fn location(&self, source: &str) -> (r: Option<SourceLocation>)
        ensures
            r is None,
    {
        None
    }
}

} // verus!
