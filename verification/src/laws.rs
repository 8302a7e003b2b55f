//! Properties that hold across the functions of the library.

use vstd::prelude::*;
use vstd::string::*;
use crate::error::{Error, ParseError, ParseErrorView, unboxed};
use crate::span::{Span, location_fits, lemma_newline_count_prefix, lemma_line_start_bound, newline_count, line_start};
use crate::render::defined_labels;
use crate::types::InvalidAssignmentType;

verus! {

/// Wherever an error names a span, the first label of its report marks
/// exactly that span.
#[verifier::rlimit(50)]
pub proof fn lemma_report_starts_at_span<'a>(e: Error<'a>, src: Seq<u8>)
    requires
        e.spec_span() is Some,
    ensures
        e.report(src).labels.len() > 0,
        e.report(src).labels[0].0 == e.spec_span().unwrap(),
{
}

/// The location of the report made of an error that names a span is the
/// location of that span.
pub proof fn lemma_report_location_is_span_location<'a>(e: Error<'a>, report: ParseError<'a>, src: Seq<u8>)
    requires
        e.spec_span() is Some,
        report@ == ParseErrorView::Single(e.report(src)),
    ensures
        report.spec_location(src) == Some(e.spec_span().unwrap().spec_location(src)),
{
    lemma_report_starts_at_span(e, src);
}

/// A report of several errors has the message `Multiple parse errors`, no
/// labels and no location.
pub proof fn lemma_multiple_report<'a>(errors: Vec<Box<Error<'a>>>, src: Seq<u8>)
    ensures
        ParseError::Multiple(errors)@ == ParseErrorView::Multiple(unboxed(errors@)),
        ParseError::Multiple(errors).spec_message() == "Multiple parse errors"@,
        ParseError::Multiple(errors).spec_labels().len() == 0,
        ParseError::Multiple(errors).spec_location(src) is None,
{
}

/// A span that starts later in the source never lies on an earlier line.
pub proof fn lemma_line_numbers_increase(a: Span, b: Span, src: Seq<u8>)
    requires
        a.start <= b.start <= src.len(),
        location_fits(src, b),
    ensures
        a.spec_location(src).line_number <= b.spec_location(src).line_number,
{
    lemma_newline_count_prefix(src, a.start as int, b.start as int);
}

/// Line numbers and positions within a line count from 1; the offset of a
/// location is where its span starts and its length is the span's length.
pub proof fn lemma_location_counts_from_one(span: Span, src: Seq<u8>)
    requires
        span.start <= span.end,
        span.start <= src.len(),
        location_fits(src, span),
    ensures
        span.spec_location(src).line_number >= 1,
        span.spec_location(src).line_position >= 1,
        span.spec_location(src).offset == span.start,
        span.spec_location(src).length == span.end - span.start,
{
    lemma_line_start_bound(src.subrange(0, span.start as int));
}

/// The catch-all message that no rule of wording gives.
pub open spec fn catch_all_message() -> Seq<char> {
    "Unknown error variant"@
}

/// Every error is worded by a rule of its own: no report carries the
/// catch-all message `Unknown error variant`, except that of a resolve or
/// constant-evaluation error whose own message is that text.
#[verifier::rlimit(100)]
#[verifier::spinoff_prover]
pub proof fn lemma_report_never_catch_all<'a>(e: Error<'a>, src: Seq<u8>)
    requires
        e matches Error::InvalidResolve(r) ==> r.message@ != catch_all_message(),
        e matches Error::ConstantEvaluatorError(c, _) ==> c.message@ != catch_all_message(),
    ensures
        e.report(src).message != catch_all_message(),
{
    reveal_strlit("Unknown error variant");
    assert(catch_all_message()[0] == 'U');
    assert(catch_all_message()[catch_all_message().len() - 1] == 't');
    match e {
        Error::Unexpected { .. } => {
            reveal_strlit("expected ");
            assert(e.report(src).message[0] != 'U');
        },
        Error::BadNumber { .. } => {
            reveal_strlit("invalid numeric literal format");
            reveal_strlit("numeric literal not representable by target type");
            assert(e.report(src).message[0] != 'U');
        },
        Error::BadMatrixScalarKind { .. } => {
            reveal_strlit("matrix scalar type must be floating-point, but found `");
            assert(e.report(src).message[0] != 'U');
        },
        Error::BadAccessor { .. } => {
            reveal_strlit("invalid field accessor `");
            assert(e.report(src).message[0] != 'U');
        },
        Error::UnknownIdent { .. } => {
            reveal_strlit("no definition in scope for identifier: `");
            assert(e.report(src).message[0] != 'U');
        },
        Error::UnknownScalarType { .. } => {
            reveal_strlit("unknown scalar type: `");
            assert(e.report(src).message[0] != 'U');
        },
        Error::BadTextureSampleType { .. } => {
            reveal_strlit("texture sample type must be one of f32, i32 or u32, but found ");
            assert(e.report(src).message[0] != 'U');
        },
        Error::BadTexture { .. } => {
            reveal_strlit("expected an image, but found `");
            assert(e.report(src).message[0] != 'U');
        },
        Error::BadTypeCast { .. } => {
            reveal_strlit("cannot cast a ");
            assert(e.report(src).message[0] != 'U');
        },
        Error::InvalidForInitializer { .. } => {
            reveal_strlit("for(;;) initializer is not an assignment or a function call: `");
            assert(e.report(src).message[0] != 'U');
        },
        Error::InvalidGatherComponent { .. } => {
            reveal_strlit("textureGather component `");
            assert(e.report(src).message[0] != 'U');
        },
        Error::InvalidConstructorComponentType { .. } => {
            reveal_strlit("invalid type for constructor component at index [");
            assert(e.report(src).message[0] != 'U');
        },
        Error::ReservedIdentifierPrefix { .. } => {
            reveal_strlit("Identifier starts with a reserved prefix: `");
            assert(e.report(src).message[0] != 'U');
        },
        Error::UnknownEnableExtension { .. } => {
            reveal_strlit("unknown enable-extension `");
            assert(e.report(src).message[0] != 'U');
        },
        Error::Redefinition { .. } => {
            reveal_strlit("redefinition of identifier");
            assert(e.report(src).message[0] != 'U');
        },
        Error::RecursiveDeclaration { .. } => {
            reveal_strlit("recursive declaration");
            assert(e.report(src).message[0] != 'U');
        },
        Error::CyclicDeclaration { .. } => {
            reveal_strlit("cyclic declaration");
            assert(e.report(src).message[0] != 'U');
        },
        Error::UnknownLanguageExtension { .. } => {
            reveal_strlit("unknown language extension `");
            assert(e.report(src).message[0] != 'U');
        },
        Error::UnknownDiagnosticRuleName { .. } => {
            reveal_strlit("unknown `diagnostic(…)` rule name `");
            assert(e.report(src).message[0] != 'U');
        },
        Error::SizeAttributeTooLow { .. } => {
            reveal_strlit("struct member size must be at least ");
            assert(e.report(src).message[0] != 'U');
        },
        Error::AlignAttributeTooLow { .. } => {
            reveal_strlit("struct member alignment must be at least ");
            assert(e.report(src).message[0] != 'U');
        },
        Error::WrongArgumentCount { .. } => {
            reveal_strlit("wrong number of arguments: expected ");
            assert(e.report(src).message[0] != 'U');
        },
        Error::TooManyArguments { .. } => {
            reveal_strlit("too many arguments passed to `");
            assert(e.report(src).message[0] != 'U');
        },
        Error::WrongArgumentType { .. } => {
            reveal_strlit("wrong type passed as argument #");
            assert(e.report(src).message[0] != 'U');
        },
        Error::InitializationTypeMismatch { .. } => {
            reveal_strlit("the type of `");
            assert(e.report(src).message[0] != 'U');
        },
        Error::DeclMissingTypeAndInit { .. } => {
            reveal_strlit("declaration of `");
            assert(e.report(src).message[0] != 'U');
        },
        Error::MissingAttribute { .. } => {
            reveal_strlit("variable `");
            assert(e.report(src).message[0] != 'U');
        },
        Error::NotReference { .. } => {
            reveal_strlit(" must be a reference");
            let m = e.report(src).message;
            assert(m[m.len() - 1] == 'e');
        },
        Error::InvalidAssignment { .. } => {
            reveal_strlit("invalid left-hand side of assignment");
            assert(e.report(src).message[0] != 'U');
        },
        Error::ReservedKeyword { .. } => {
            reveal_strlit("name `");
            assert(e.report(src).message[0] != 'U');
        },
        Error::InconsistentArgumentType { .. } => {
            reveal_strlit("inconsistent type passed as argument #");
            assert(e.report(src).message[0] != 'U');
        },
        Error::FunctionMustUseUnused { .. } => {
            reveal_strlit("unused return value from function annotated with @must_use");
            assert(e.report(src).message[0] != 'U');
        },
        Error::FunctionMustUseReturnsVoid { .. } => {
            reveal_strlit("function annotated with @must_use but does not return any value");
            assert(e.report(src).message[0] != 'U');
        },
        Error::Internal { .. } => {
            reveal_strlit("internal WGSL front end error");
            assert(e.report(src).message[0] != 'U');
        },
        Error::AutoConversion { .. } => {
            reveal_strlit("automatic conversions cannot convert `");
            assert(e.report(src).message[0] != 'U');
        },
        Error::AutoConversionLeafScalar { .. } => {
            reveal_strlit("automatic conversions cannot convert elements of `");
            assert(e.report(src).message[0] != 'U');
        },
        Error::ConcretizationFailed { .. } => {
            reveal_strlit("failed to convert expression to a concrete type: ");
            assert(e.report(src).message[0] != 'U');
        },
        Error::ExceededLimitForNestedBraces { .. } => {
            reveal_strlit("brace nesting limit reached");
            assert(e.report(src).message[0] != 'U');
        },
        Error::EnableExtensionNotYetImplemented { .. } => {
            reveal_strlit("the `");
            assert(e.report(src).message[0] != 'U');
        },
        Error::EnableExtensionNotEnabled { .. } => {
            reveal_strlit("the `");
            assert(e.report(src).message[0] != 'U');
        },
        Error::LanguageExtensionNotYetImplemented { .. } => {
            reveal_strlit("the `");
            assert(e.report(src).message[0] != 'U');
        },
        Error::DiagnosticDuplicateTriggeringRule { .. } => {
            reveal_strlit("found conflicting `diagnostic(…)` rule(s)");
            assert(e.report(src).message[0] != 'U');
        },
        Error::DiagnosticAttributeNotYetImplementedAtParseSite { .. } => {
            reveal_strlit("`@diagnostic(…)` attribute(s) not yet implemented");
            assert(e.report(src).message[0] != 'U');
        },
        Error::DiagnosticAttributeNotSupported { .. } => {
            reveal_strlit("`@diagnostic(…)` attribute(s) on ");
            assert(e.report(src).message[0] != 'U');
        },
        Error::SelectUnexpectedArgumentType { .. } => {
            reveal_strlit("unexpected argument type for `select` call");
            assert(e.report(src).message[0] != 'U');
        },
        Error::SelectRejectAndAcceptHaveNoCommonType { .. } => {
            reveal_strlit("type mismatch for reject and accept values in `select` call");
            assert(e.report(src).message[0] != 'U');
        },
        Error::UnexpectedComponents { .. } => {
            reveal_strlit("unexpected components");
            assert(e.report(src).message[0] != 'U');
        },
        Error::UnexpectedOperationInConstContext { .. } => {
            reveal_strlit("this operation is not supported in a const context");
            assert(e.report(src).message[0] != 'U');
        },
        Error::NotStorageTexture { .. } => {
            reveal_strlit("textureStore can only be applied to storage textures");
            assert(e.report(src).message[0] != 'U');
        },
        Error::BadIncrDecrReferenceType { .. } => {
            reveal_strlit("increment/decrement operation requires a reference type of i32 or u32");
            assert(e.report(src).message[0] != 'U');
        },
        Error::InvalidBreakIf { .. } => {
            reveal_strlit("break-if is only allowed in continuing block");
            assert(e.report(src).message[0] != 'U');
        },
        Error::UnknownAddressSpace { .. } => {
            reveal_strlit("unknown address space");
            assert(e.report(src).message[0] != 'U');
        },
        Error::RepeatedAttribute { .. } => {
            reveal_strlit("repeated attribute");
            assert(e.report(src).message[0] != 'U');
        },
        Error::UnknownAttribute { .. } => {
            reveal_strlit("unknown attribute");
            assert(e.report(src).message[0] != 'U');
        },
        Error::UnknownBuiltin { .. } => {
            reveal_strlit("unknown builtin");
            assert(e.report(src).message[0] != 'U');
        },
        Error::UnknownAccess { .. } => {
            reveal_strlit("unknown access");
            assert(e.report(src).message[0] != 'U');
        },
        Error::UnknownType { .. } => {
            reveal_strlit("unknown type");
            assert(e.report(src).message[0] != 'U');
        },
        Error::UnknownStorageFormat { .. } => {
            reveal_strlit("unknown storage format");
            assert(e.report(src).message[0] != 'U');
        },
        Error::UnknownConservativeDepth { .. } => {
            reveal_strlit("unknown conservative depth");
            assert(e.report(src).message[0] != 'U');
        },
        Error::InvalidSwitchSelector { .. } => {
            reveal_strlit("invalid switch selector");
            assert(e.report(src).message[0] != 'U');
        },
        Error::InvalidSwitchCase { .. } => {
            reveal_strlit("invalid switch case");
            assert(e.report(src).message[0] != 'U');
        },
        Error::SwitchCaseTypeMismatch { .. } => {
            reveal_strlit("switch case type mismatch");
            assert(e.report(src).message[0] != 'U');
        },
        Error::NonPowerOfTwoAlignAttribute { .. } => {
            reveal_strlit("struct member alignment must be a power of 2");
            assert(e.report(src).message[0] != 'U');
        },
        Error::InconsistentBinding { .. } => {
            reveal_strlit("input/output binding is not consistent");
            assert(e.report(src).message[0] != 'U');
        },
        Error::CalledEntryPoint { .. } => {
            reveal_strlit("entry point cannot be called");
            assert(e.report(src).message[0] != 'U');
        },
        Error::TypeNotConstructible { .. } => {
            reveal_strlit("type is not constructible");
            assert(e.report(src).message[0] != 'U');
        },
        Error::TypeNotInferable { .. } => {
            reveal_strlit("type not inferable");
            assert(e.report(src).message[0] != 'U');
        },
        Error::InvalidAddrOfOperand { .. } => {
            reveal_strlit("invalid operand for address-of operator");
            assert(e.report(src).message[0] != 'U');
        },
        Error::InvalidAtomicPointer { .. } => {
            reveal_strlit("atomic operation is done on a pointer to a non-atomic");
            assert(e.report(src).message[0] != 'U');
        },
        Error::InvalidAtomicOperandType { .. } => {
            reveal_strlit("atomic operand type is inconsistent with the operation");
            assert(e.report(src).message[0] != 'U');
        },
        Error::InvalidRayQueryPointer { .. } => {
            reveal_strlit("ray query operation is done on a pointer to a non-ray-query");
            assert(e.report(src).message[0] != 'U');
        },
        Error::NotPointer { .. } => {
            reveal_strlit("the operand of the `*` operator must be a pointer");
            assert(e.report(src).message[0] != 'U');
        },
        Error::ExpectedConstExprConcreteIntegerScalar { .. } => {
            reveal_strlit("must be a const-expression that resolves to a concrete integer scalar (`u32` or `i32`)");
            assert(e.report(src).message[0] != 'U');
        },
        Error::ExpectedNonNegative { .. } => {
            reveal_strlit("must be non-negative (>= 0)");
            assert(e.report(src).message[0] != 'U');
        },
        Error::ExpectedPositiveArrayLength { .. } => {
            reveal_strlit("array element count must be positive (> 0)");
            assert(e.report(src).message[0] != 'U');
        },
        Error::MissingWorkgroupSize { .. } => {
            reveal_strlit("workgroup size is missing on compute shader entry point");
            assert(e.report(src).message[0] != 'U');
        },
        Error::PipelineConstantIDValue { .. } => {
            reveal_strlit("pipeline constant ID must be between 0 and 65535 inclusive");
            assert(e.report(src).message[0] != 'U');
        },
        Error::NotBool { .. } => {
            reveal_strlit("must be a const-expression that resolves to a `bool`");
            assert(e.report(src).message[0] != 'U');
        },
        Error::ConstAssertFailed { .. } => {
            reveal_strlit("`const_assert` failure");
            assert(e.report(src).message[0] != 'U');
        },
        Error::InvalidIdentifierUnderscore { .. } => {
            reveal_strlit("Identifier can't be `_`");
            assert(e.report(src).message[0] != 'U');
        },
        Error::FunctionReturnsVoid { .. } => {
            reveal_strlit("function does not return any value");
            assert(e.report(src).message[0] != 'U');
        },
        Error::InvalidWorkGroupUniformLoad { .. } => {
            reveal_strlit("incorrect type passed to workgroupUniformLoad");
            assert(e.report(src).message[0] != 'U');
        },
        Error::DirectiveAfterFirstGlobalDecl { .. } => {
            reveal_strlit("expected global declaration, but found a global directive");
            assert(e.report(src).message[0] != 'U');
        },
        Error::DiagnosticInvalidSeverity { .. } => {
            reveal_strlit("invalid `diagnostic(…)` severity");
            assert(e.report(src).message[0] != 'U');
        },
        Error::InvalidResolve { .. } | Error::ConstantEvaluatorError { .. } => {},
    }
}

/// The report of a recursive declaration marks the declaration and then
/// the place where it uses itself.
pub proof fn lemma_recursive_declaration_marks_usage<'a>(ident: Span, usage: Span, src: Seq<u8>)
    ensures
        ({
            let e: Error<'a> = Error::RecursiveDeclaration { ident, usage };
            let labels = e.report(src).labels;
            &&& labels.len() == 2
            &&& labels[0] == (ident, "declaration"@)
            &&& labels[1] == (usage, "uses itself here"@)
            &&& exists|i: int| 0 <= i < labels.len() && #[trigger] labels[i].0 == usage
        }),
{
    let e: Error<'a> = Error::RecursiveDeclaration { ident, usage };
            let labels = e.report(src).labels;
    assert(labels[1].0 == usage);
}

/// The labels that a diagnostic carries are exactly the report's labels
/// whose span is defined, in order, each at its span's byte range and with
/// its text.
pub proof fn lemma_diagnostic_keeps_every_defined_label(labels: Seq<(Span, Seq<char>)>)
    ensures
        defined_labels(labels) == labels.filter(|l: (Span, Seq<char>)| l.0.spec_is_defined()).map_values(
            |l: (Span, Seq<char>)| (l.0.start as usize, l.0.end as usize, l.1)),
    decreases labels.len(),
{
    reveal(Seq::filter);
    let pred = |l: (Span, Seq<char>)| l.0.spec_is_defined();
    let f = |l: (Span, Seq<char>)| (l.0.start as usize, l.0.end as usize, l.1);
    if labels.len() == 0 {
        assert(labels.filter(pred) =~= Seq::<(Span, Seq<char>)>::empty());
        assert(labels.filter(pred).map_values(f) =~= Seq::<(usize, usize, Seq<char>)>::empty());
    } else {
        lemma_diagnostic_keeps_every_defined_label(labels.drop_last());
        let sub = labels.drop_last().filter(pred);
        if pred(labels.last()) {
            assert(labels.filter(pred) == sub.push(labels.last()));
            assert(sub.push(labels.last()).map_values(f) =~= sub.map_values(f).push(f(labels.last())));
        } else {
            assert(labels.filter(pred) == sub);
        }
    }
}

/// The description of a type cast names the type cast from and then the
/// type cast to, in the same order as its report's message.
pub proof fn lemma_type_cast_names_source_then_target<'a>(span: Span, from_type: String, to_type: String, src: Seq<u8>)
    ensures
        ({
            let e: Error<'a> = Error::BadTypeCast { span, from_type, to_type };
            let d = e.display();
            let tail = from_type@ + " to "@ + to_type@;
            &&& d.len() >= tail.len()
            &&& d.subrange(d.len() - tail.len(), d.len() as int) == tail
            &&& e.report(src).message == "cannot cast a "@ + from_type@ + " to a "@ + to_type@
        }),
{
    let e: Error<'a> = Error::BadTypeCast { span, from_type, to_type };
    let d = e.display();
    let tail = from_type@ + " to "@ + to_type@;
    assert(d.subrange(d.len() - tail.len(), d.len() as int) =~= tail);
}

proof fn lemma_newline_count_is_filter(b: Seq<u8>)
    ensures
        newline_count(b) == b.filter(|x: u8| x == 10u8).len(),
    decreases b.len(),
{
    reveal(Seq::filter);
    if b.len() > 0 {
        lemma_newline_count_is_filter(b.drop_last());
    }
}

proof fn lemma_line_start_follows_last_newline(b: Seq<u8>)
    ensures
        line_start(b) <= b.len(),
        line_start(b) == 0 || b[line_start(b) - 1] == 10u8,
        forall|i: int| line_start(b) <= i < b.len() ==> b[i] != 10u8,
    decreases b.len(),
{
    if b.len() > 0 && b.last() != 10u8 {
        lemma_line_start_follows_last_newline(b.drop_last());
        assert forall|i: int| line_start(b) <= i < b.len() implies b[i] != 10u8 by {
            if i < b.len() - 1 {
                assert(b[i] == b.drop_last()[i]);
            }
        }
    }
}

/// A location's line number is one more than the number of newline bytes
/// before the span starts, and its position counts from the byte after the
/// last of them (or from the start of the source): no newline byte lies
/// between that byte and the span's start.
pub proof fn lemma_location_counts_newline_bytes(span: Span, src: Seq<u8>)
    requires
        span.start <= src.len(),
        location_fits(src, span),
    ensures
        span.spec_location(src).line_number
            == 1 + src.subrange(0, span.start as int).filter(|x: u8| x == 10u8).len(),
        ({
            let first = span.start + 1 - span.spec_location(src).line_position;
            &&& 0 <= first <= span.start
            &&& (first == 0 || src[first - 1] == 10u8)
            &&& forall|i: int| first <= i < span.start ==> src[i] != 10u8
        }),
{
    let prefix = src.subrange(0, span.start as int);
    lemma_newline_count_is_filter(prefix);
    lemma_line_start_follows_last_newline(prefix);
    let first = span.start + 1 - span.spec_location(src).line_position;
    assert(first == line_start(prefix));
    assert forall|i: int| first <= i < span.start implies src[i] != 10u8 by {
        assert(src[i] == prefix[i]);
    }
    if first > 0 {
        assert(src[first - 1] == prefix[first - 1]);
    }
}

/// Wherever the report of an error marks a span, the error's own span is
/// the first span its report marks.
#[verifier::rlimit(100)]
#[verifier::spinoff_prover]
pub proof fn lemma_span_is_first_label<'a>(e: Error<'a>, src: Seq<u8>)
    requires
        e.reportable(src),
        e.report(src).labels.len() > 0,
    ensures
        e.spec_span() == Some(e.report(src).labels[0].0),
{
}

/// The spans an error carries, in the order of its fields: each declaration
/// of a cycle is taken (not the references between them), and the binding
/// of an assignment to an immutable binding.
pub open spec fn carried_spans<'a>(e: Error<'a>) -> Seq<Span> {
    match e {
        Error::Unexpected(span, _) => seq![span],
        Error::UnexpectedComponents(span) => seq![span],
        Error::UnexpectedOperationInConstContext(span) => seq![span],
        Error::BadNumber(span, _) => seq![span],
        Error::BadMatrixScalarKind(span, _) => seq![span],
        Error::BadAccessor(span) => seq![span],
        Error::BadTexture(span) => seq![span],
        Error::BadTypeCast { span, .. } => seq![span],
        Error::NotStorageTexture(span) => seq![span],
        Error::BadTextureSampleType { span, .. } => seq![span],
        Error::BadIncrDecrReferenceType(span) => seq![span],
        Error::InvalidResolve(_) => Seq::empty(),
        Error::InvalidForInitializer(span) => seq![span],
        Error::InvalidBreakIf(span) => seq![span],
        Error::InvalidGatherComponent(span) => seq![span],
        Error::InvalidConstructorComponentType(span, _) => seq![span],
        Error::InvalidIdentifierUnderscore(span) => seq![span],
        Error::ReservedIdentifierPrefix(span) => seq![span],
        Error::UnknownAddressSpace(span) => seq![span],
        Error::RepeatedAttribute(span) => seq![span],
        Error::UnknownAttribute(span) => seq![span],
        Error::UnknownBuiltin(span) => seq![span],
        Error::UnknownAccess(span) => seq![span],
        Error::UnknownIdent(span, _) => seq![span],
        Error::UnknownScalarType(span) => seq![span],
        Error::UnknownType(span) => seq![span],
        Error::UnknownStorageFormat(span) => seq![span],
        Error::UnknownConservativeDepth(span) => seq![span],
        Error::UnknownEnableExtension(span, _) => seq![span],
        Error::UnknownLanguageExtension(span, _) => seq![span],
        Error::UnknownDiagnosticRuleName(span) => seq![span],
        Error::SizeAttributeTooLow(span, _) => seq![span],
        Error::AlignAttributeTooLow(span, _) => seq![span],
        Error::NonPowerOfTwoAlignAttribute(span) => seq![span],
        Error::InconsistentBinding(span) => seq![span],
        Error::TypeNotConstructible(span) => seq![span],
        Error::TypeNotInferable(span) => seq![span],
        Error::InitializationTypeMismatch { name, .. } => seq![name],
        Error::DeclMissingTypeAndInit(span) => seq![span],
        Error::MissingAttribute(_, span) => seq![span],
        Error::InvalidAddrOfOperand(span) => seq![span],
        Error::InvalidAtomicPointer(span) => seq![span],
        Error::InvalidAtomicOperandType(span) => seq![span],
        Error::InvalidRayQueryPointer(span) => seq![span],
        Error::NotPointer(span) => seq![span],
        Error::NotReference(_, span) => seq![span],
        Error::InvalidAssignment { span, ty } => match ty {
            InvalidAssignmentType::ImmutableBinding(binding) => seq![span, binding],
            _ => seq![span],
        },
        Error::ReservedKeyword(span) => seq![span],
        Error::Redefinition { previous, current, .. } => seq![previous, current],
        Error::RecursiveDeclaration { ident, usage, .. } => seq![ident, usage],
        Error::CyclicDeclaration { ident, path } => seq![ident] + path@.map_values(|p: (Span, Span)| p.0),
        Error::InvalidSwitchSelector { span, .. } => seq![span],
        Error::InvalidSwitchCase { span, .. } => seq![span],
        Error::SwitchCaseTypeMismatch { span, .. } => seq![span],
        Error::CalledEntryPoint(span) => seq![span],
        Error::WrongArgumentCount { span, .. } => seq![span],
        Error::TooManyArguments { call_span, arg_span, .. } => seq![call_span, arg_span],
        Error::WrongArgumentType { call_span, arg_span, .. } => seq![call_span, arg_span],
        Error::InconsistentArgumentType { call_span, arg_span, inconsistent_span, .. } => seq![call_span, arg_span, inconsistent_span],
        Error::FunctionReturnsVoid(span) => seq![span],
        Error::FunctionMustUseUnused(span) => seq![span],
        Error::FunctionMustUseReturnsVoid(attribute, signature) => seq![attribute, signature],
        Error::InvalidWorkGroupUniformLoad(span) => seq![span],
        Error::Internal(_) => Seq::empty(),
        Error::ExpectedConstExprConcreteIntegerScalar(span) => seq![span],
        Error::ExpectedNonNegative(span) => seq![span],
        Error::ExpectedPositiveArrayLength(span) => seq![span],
        Error::MissingWorkgroupSize(span) => seq![span],
        Error::ConstantEvaluatorError(_, sp) => seq![sp],
        Error::AutoConversion(err) => seq![err.dest_span, err.source_span],
        Error::AutoConversionLeafScalar(err) => seq![err.dest_span, err.source_span],
        Error::ConcretizationFailed(err) => seq![err.expr_span],
        Error::ExceededLimitForNestedBraces { span, .. } => seq![span],
        Error::PipelineConstantIDValue(span) => seq![span],
        Error::NotBool(span) => seq![span],
        Error::ConstAssertFailed(span) => seq![span],
        Error::DirectiveAfterFirstGlobalDecl { directive_span, .. } => seq![directive_span],
        Error::EnableExtensionNotYetImplemented { span, .. } => seq![span],
        Error::EnableExtensionNotEnabled { span, .. } => seq![span],
        Error::LanguageExtensionNotYetImplemented { span, .. } => seq![span],
        Error::DiagnosticInvalidSeverity { severity_control_name_span, .. } => seq![severity_control_name_span],
        Error::DiagnosticDuplicateTriggeringRule(rule) => seq![rule.triggering_rule_spans[0], rule.triggering_rule_spans[1]],
        Error::DiagnosticAttributeNotYetImplementedAtParseSite { spans, .. } => spans@,
        Error::DiagnosticAttributeNotSupported { spans, .. } => spans@,
        Error::SelectUnexpectedArgumentType { arg_span, .. } => seq![arg_span],
        Error::SelectRejectAndAcceptHaveNoCommonType { reject_span, accept_span, .. } => seq![reject_span, accept_span],
    }
}

/// The report of an error marks exactly the spans the error carries, in
/// order, each once: none is dropped, repeated or replaced by another.
#[verifier::rlimit(100)]
#[verifier::spinoff_prover]
pub proof fn lemma_report_marks_carried_spans<'a>(e: Error<'a>, src: Seq<u8>)
    requires
        e.reportable(src),
    ensures
        e.report(src).labels.map_values(|l: (Span, Seq<char>)| l.0) == carried_spans(e),
{
    let marked = e.report(src).labels.map_values(|l: (Span, Seq<char>)| l.0);
    assert(marked =~= carried_spans(e));
}

} // verus!
