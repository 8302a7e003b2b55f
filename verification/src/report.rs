//! Wording an error as a report: a message, labelled spans and notes.

use vstd::prelude::*;
use vstd::string::*;
use crate::error::{Error, ParseError, ParseErrorView, Report, labels_view, strings_view};
use crate::span::{Span, sliceable, source_text, source_slice};
use crate::text::{
    dec, dec_int, str_debug_text, lit, cat2, cat3, cat4, cat5, dec_string, dec_string_signed,
    str_debug,
};
use crate::types::{
    DiagnosticAttributeNotSupportedPosition, EnableExtension, InvalidAssignmentType,
};
use crate::words::{
    expected_text, expected_string, number_error_text, scalar_diagnostic_text, alignment_text,
    range_debug, range_debug_string, enable_extension_ident,
};

verus! {

/// A report with one label and no notes.
pub open spec fn simple_report(span: Span, message: Seq<char>, label: Seq<char>) -> Report {
    Report { message, labels: seq![(span, label)], notes: seq![] }
}

/// A report with one label and one note.
pub open spec fn noted_report(span: Span, message: Seq<char>, label: Seq<char>, note: Seq<char>) -> Report {
    Report { message, labels: seq![(span, label)], notes: seq![note] }
}

/// The notes that list the types an argument could have had.
pub open spec fn allowed_type_notes(allowed: Seq<Seq<char>>) -> Seq<Seq<char>> {
    allowed.map_values(|t: Seq<char>| "allowed type: "@ + t)
}

/// Spans labelled with empty texts.
pub open spec fn unlabelled(spans: Seq<Span>) -> Seq<(Span, Seq<char>)> {
    spans.map_values(|s: Span| (s, Seq::<char>::empty()))
}

/// The note that asks to report an unimplemented feature at a tracking issue.
pub open spec fn tracking_note(num: u32) -> Seq<char> {
    "Let Naga maintainers know that you ran into this at <https://github.com/gfx-rs/wgpu/issues/"@
        + dec(num as nat) + ">, so they can prioritize it!"@
}

impl<'a> Error<'a> {
    /// The error can be worded against source bytes `src`: every span
    /// whose text a message quotes can be cut out of `src`, the argument
    /// numbers that a message counts up do not overflow, and a
    /// `@diagnostic(…)` rejection names at least one span.
    pub open spec fn reportable(&self, src: Seq<u8>) -> bool {
        match *self {
            Error::Unexpected(sp, _) => sliceable(src, sp),
            Error::BadNumber(sp, _) => sliceable(src, sp),
            Error::BadAccessor(sp) => sliceable(src, sp),
            Error::UnknownScalarType(sp) => sliceable(src, sp),
            Error::BadTexture(sp) => sliceable(src, sp),
            Error::InvalidForInitializer(sp) => sliceable(src, sp),
            Error::InvalidGatherComponent(sp) => sliceable(src, sp),
            Error::ReservedIdentifierPrefix(sp) => sliceable(src, sp),
            Error::UnknownDiagnosticRuleName(sp) => sliceable(src, sp),
            Error::InitializationTypeMismatch { name, .. } => sliceable(src, name),
            Error::DeclMissingTypeAndInit(sp) => sliceable(src, sp),
            Error::MissingAttribute(_, sp) => sliceable(src, sp),
            Error::InvalidAssignment { ty, .. } => match ty {
                InvalidAssignmentType::ImmutableBinding(b) => sliceable(src, b),
                _ => true,
            },
            Error::ReservedKeyword(sp) => sliceable(src, sp),
            Error::FunctionMustUseUnused(sp) => sliceable(src, sp),
            Error::TooManyArguments { max_arguments, .. } => max_arguments < u32::MAX,
            Error::WrongArgumentType { arg_index, .. } => arg_index < u32::MAX,
            Error::InconsistentArgumentType { arg_index, inconsistent_index, .. } =>
                arg_index < u32::MAX && inconsistent_index < u32::MAX,
            Error::DiagnosticAttributeNotYetImplementedAtParseSite { spans, .. } => spans@.len() > 0,
            _ => true,
        }
    }

    /// The wording of the error against source bytes `src`.
    pub open spec fn report(&self, src: Seq<u8>) -> Report {
        match *self {
            Error::Unexpected(sp, expected) => {
                let e = expected_text(expected);
                Report {
                    message: "expected "@ + e + ", found "@ + str_debug_text(source_text(src, sp)),
                    labels: seq![(sp, "expected "@ + e)],
                    notes: seq![],
                }
            },
            Error::BadNumber(sp, err) => Report {
                message: number_error_text(err) + ": `"@ + source_text(src, sp) + "`"@,
                labels: seq![(sp, number_error_text(err))],
                notes: seq![],
            },
            Error::BadMatrixScalarKind(sp, scalar) => simple_report(
                sp,
                "matrix scalar type must be floating-point, but found `"@ + scalar_diagnostic_text(scalar) + "`"@,
                "must be floating-point (e.g. `f32`)"@,
            ),
            Error::BadAccessor(sp) => simple_report(
                sp,
                "invalid field accessor `"@ + source_text(src, sp) + "`"@,
                "invalid accessor"@,
            ),
            Error::UnknownIdent(sp, ident) => simple_report(
                sp,
                "no definition in scope for identifier: `"@ + ident@ + "`"@,
                "unknown identifier"@,
            ),
            Error::UnknownScalarType(sp) => noted_report(
                sp,
                "unknown scalar type: `"@ + source_text(src, sp) + "`"@,
                "unknown scalar type"@,
                "Valid scalar types are f32, f64, i32, u32, bool"@,
            ),
            Error::BadTextureSampleType { span, scalar } => simple_report(
                span,
                "texture sample type must be one of f32, i32 or u32, but found "@ + scalar_diagnostic_text(scalar),
                "must be one of f32, i32 or u32"@,
            ),
            Error::BadTexture(sp) => simple_report(
                sp,
                "expected an image, but found `"@ + source_text(src, sp) + "` which is not an image"@,
                "not an image"@,
            ),
            Error::BadTypeCast { span, from_type, to_type } => {
                let msg = "cannot cast a "@ + from_type@ + " to a "@ + to_type@;
                simple_report(span, msg, msg)
            },
            Error::InvalidResolve(e) => Report { message: e.message@, labels: seq![], notes: seq![] },
            Error::InvalidForInitializer(sp) => simple_report(
                sp,
                "for(;;) initializer is not an assignment or a function call: `"@ + source_text(src, sp) + "`"@,
                "not an assignment or function call"@,
            ),
            Error::InvalidGatherComponent(sp) => simple_report(
                sp,
                "textureGather component `"@ + source_text(src, sp) + "` doesn't exist, must be 0, 1, 2, or 3"@,
                "invalid component"@,
            ),
            Error::InvalidConstructorComponentType(sp, component) => simple_report(
                sp,
                "invalid type for constructor component at index ["@ + dec_int(component as int) + "]"@,
                "invalid component type"@,
            ),
            Error::ReservedIdentifierPrefix(sp) => simple_report(
                sp,
                "Identifier starts with a reserved prefix: `"@ + source_text(src, sp) + "`"@,
                "invalid identifier"@,
            ),
            Error::UnknownEnableExtension(sp, word) => noted_report(
                sp,
                "unknown enable-extension `"@ + word@ + "`"@,
                ""@,
                "See available extensions at <https://www.w3.org/TR/WGSL/#enable-extension>."@,
            ),
            Error::Redefinition { previous, current } => Report {
                message: "redefinition of identifier"@,
                labels: seq![(previous, "previous definition"@), (current, "redefinition"@)],
                notes: seq![],
            },
            Error::RecursiveDeclaration { ident, usage } => Report {
                message: "recursive declaration"@,
                labels: seq![(ident, "declaration"@), (usage, "uses itself here"@)],
                notes: seq![],
            },
            Error::CyclicDeclaration { ident, path } => Report {
                message: "cyclic declaration"@,
                labels: seq![(ident, "cycle starts here"@)]
                    + path@.map_values(|p: (Span, Span)| (p.0, "cycle"@)),
                notes: seq![],
            },
            Error::UnknownLanguageExtension(sp, name) => noted_report(
                sp,
                "unknown language extension `"@ + name@ + "`"@,
                ""@,
                "See available extensions at <https://www.w3.org/TR/WGSL/#language-extensions-sec>."@,
            ),
            Error::UnknownDiagnosticRuleName(sp) => noted_report(
                sp,
                "unknown `diagnostic(…)` rule name `"@ + source_text(src, sp) + "`"@,
                "not a valid diagnostic rule name"@,
                "See available trigger rules at <https://www.w3.org/TR/WGSL/#filterable-triggering-rules>."@,
            ),
            Error::SizeAttributeTooLow(sp, min_size) => simple_report(
                sp,
                "struct member size must be at least "@ + dec(min_size as nat),
                "must be at least "@ + dec(min_size as nat),
            ),
            Error::AlignAttributeTooLow(sp, min_align) => simple_report(
                sp,
                "struct member alignment must be at least "@ + alignment_text(min_align),
                "must be at least "@ + alignment_text(min_align),
            ),
            Error::WrongArgumentCount { span, expected, found } => simple_report(
                span,
                "wrong number of arguments: expected "@ + range_debug(expected) + ", found "@ + dec(found as nat),
                "wrong number of arguments"@,
            ),
            Error::TooManyArguments { function, call_span, arg_span, max_arguments } => Report {
                message: "too many arguments passed to `"@ + function@ + "`"@,
                labels: seq![
                    (call_span, ""@),
                    (arg_span, "unexpected argument #"@ + dec((max_arguments + 1) as nat)),
                ],
                notes: seq![
                    "The `"@ + function@ + "` function accepts at most "@ + dec(max_arguments as nat) + " argument(s)"@,
                ],
            },
            Error::WrongArgumentType { function, call_span, arg_span, arg_index, arg_ty, allowed } => {
                let n = dec((arg_index + 1) as nat);
                Report {
                    message: "wrong type passed as argument #"@ + n + " to `"@ + function@ + "`"@,
                    labels: seq![
                        (call_span, ""@),
                        (arg_span, "argument #"@ + n + " has type `"@ + arg_ty@ + "`"@),
                    ],
                    notes: seq!["`"@ + function@ + "` accepts the following types for argument #"@ + n + ":"@]
                        + allowed_type_notes(strings_view(allowed@)),
                }
            },
            Error::InitializationTypeMismatch { name, expected, got } => simple_report(
                name,
                "the type of `"@ + source_text(src, name) + "` is expected to be `"@ + expected@ + "`, but got `"@ + got@ + "`"@,
                "definition of `"@ + source_text(src, name) + "`"@,
            ),
            Error::DeclMissingTypeAndInit(sp) => simple_report(
                sp,
                "declaration of `"@ + source_text(src, sp) + "` needs a type specifier or initializer"@,
                "needs a type specifier or initializer"@,
            ),
            Error::MissingAttribute(name, sp) => simple_report(
                sp,
                "variable `"@ + source_text(src, sp) + "` needs a '"@ + name@ + "' attribute"@,
                "definition of `"@ + source_text(src, sp) + "`"@,
            ),
            Error::NotReference(what, sp) => simple_report(
                sp,
                what@ + " must be a reference"@,
                "expression is not a reference"@,
            ),
            Error::InvalidAssignment { span, ty } => Report {
                message: "invalid left-hand side of assignment"@,
                labels: match ty {
                    InvalidAssignmentType::ImmutableBinding(b) => seq![
                        (span, "cannot assign to this expression"@),
                        (b, "this is an immutable binding"@),
                    ],
                    _ => seq![(span, "cannot assign to this expression"@)],
                },
                notes: match ty {
                    InvalidAssignmentType::Swizzle => seq![
                        "WGSL does not support assignments to swizzles"@,
                        "consider assigning each component individually"@,
                    ],
                    InvalidAssignmentType::ImmutableBinding(b) => seq![
                        "consider declaring `"@ + source_text(src, b) + "` with `var` instead of `let`"@,
                    ],
                    InvalidAssignmentType::Other => seq![],
                },
            },
            Error::ReservedKeyword(sp) => simple_report(
                sp,
                "name `"@ + source_text(src, sp) + "` is a reserved keyword"@,
                "definition of `"@ + source_text(src, sp) + "`"@,
            ),
            Error::InconsistentArgumentType {
                function, call_span, arg_span, arg_index, arg_ty,
                inconsistent_span, inconsistent_index, inconsistent_ty, allowed,
            } => {
                let n = dec((arg_index + 1) as nat);
                Report {
                    message: "inconsistent type passed as argument #"@ + n + " to `"@ + function@ + "`"@,
                    labels: seq![
                        (call_span, ""@),
                        (arg_span, "argument #"@ + n + " has type "@ + arg_ty@),
                        (inconsistent_span, "this argument has type "@ + inconsistent_ty@
                            + ", which constrains subsequent arguments"@),
                    ],
                    notes: seq![
                        "Because argument #"@ + dec((inconsistent_index + 1) as nat) + " has type "@
                            + inconsistent_ty@ + ", only the following types"@,
                        "(or types that automatically convert to them) are accepted for argument #"@ + n + ":"@,
                    ] + allowed_type_notes(strings_view(allowed@)),
                }
            },
            Error::FunctionMustUseUnused(call) => Report {
                message: "unused return value from function annotated with @must_use"@,
                labels: seq![(call, ""@)],
                notes: seq![
                    "function '"@ + source_text(src, call) + "' is declared with `@must_use` attribute"@,
                    "use a phony assignment or declare a value using the function call as the initializer"@,
                ],
            },
            Error::FunctionMustUseReturnsVoid(attr, signature) => Report {
                message: "function annotated with @must_use but does not return any value"@,
                labels: seq![(attr, ""@), (signature, ""@)],
                notes: seq!["declare a return type or remove the attribute"@],
            },
            Error::Internal(message) => Report {
                message: "internal WGSL front end error"@,
                labels: seq![],
                notes: seq![message@],
            },
            Error::ConstantEvaluatorError(e, sp) => simple_report(sp, e.message@, "see msg"@),
            Error::AutoConversion(err) => Report {
                message: "automatic conversions cannot convert `"@ + err.source_type@ + "` to `"@ + err.dest_type@ + "`"@,
                labels: seq![
                    (err.dest_span, "a value of type "@ + err.dest_type@ + " is required here"@),
                    (err.source_span, "this expression has type "@ + err.source_type@),
                ],
                notes: seq![],
            },
            Error::AutoConversionLeafScalar(err) => Report {
                message: "automatic conversions cannot convert elements of `"@ + err.source_type@ + "` to `"@ + err.dest_scalar@ + "`"@,
                labels: seq![
                    (err.dest_span, "a value with elements of type "@ + err.dest_scalar@ + " is required here"@),
                    (err.source_span, "this expression has type "@ + err.source_type@),
                ],
                notes: seq![],
            },
            Error::ConcretizationFailed(err) => Report {
                message: "failed to convert expression to a concrete type: "@ + err.inner.message@,
                labels: seq![(err.expr_span, "this expression has type "@ + err.expr_type@)],
                notes: seq!["the expression should have been converted to have "@ + err.scalar@ + " scalar type"@],
            },
            Error::ExceededLimitForNestedBraces { span, limit } => noted_report(
                span,
                "brace nesting limit reached"@,
                "limit reached at this brace"@,
                "nesting limit is currently set to "@ + dec(limit as nat),
            ),
            Error::EnableExtensionNotYetImplemented { kind, span } => noted_report(
                span,
                "the `"@ + kind.ident@ + "` enable-extension is not yet supported"@,
                "this enable-extension specifies standard functionality which is not yet implemented in Naga"@,
                tracking_note(kind.tracking_issue_num),
            ),
            Error::EnableExtensionNotEnabled { kind, span } => {
                let ident = enable_extension_ident(kind);
                noted_report(
                    span,
                    "the `"@ + ident + "` enable extension is not enabled"@,
                    "the `"@ + ident + "` \"Enable Extension\" is needed for this functionality, but it is not currently enabled."@,
                    match kind {
                        EnableExtension::Unimplemented(u) =>
                            "This \"Enable Extension\" is not yet implemented. "@ + tracking_note(u.tracking_issue_num),
                        EnableExtension::Implemented(_) =>
                            "You can enable this extension by adding `enable "@ + ident + ";` at the top of the shader, before any other items."@,
                    },
                )
            },
            Error::LanguageExtensionNotYetImplemented { kind, span } => noted_report(
                span,
                "the `"@ + kind.ident@ + "` language extension is not yet supported"@,
                ""@,
                tracking_note(kind.tracking_issue_num),
            ),
            Error::DiagnosticDuplicateTriggeringRule(e) => Report {
                message: "found conflicting `diagnostic(…)` rule(s)"@,
                labels: seq![
                    (e.triggering_rule_spans[0], "first rule"@),
                    (e.triggering_rule_spans[1], "second rule"@),
                ],
                notes: seq![
                    "Multiple `diagnostic(…)` rules with the same rule name conflict unless they are directives and the severity is the same."@,
                    "You should delete the rule you don't want."@,
                ],
            },
            Error::DiagnosticAttributeNotYetImplementedAtParseSite { site_name_plural, spans } => Report {
                message: "`@diagnostic(…)` attribute(s) not yet implemented"@,
                labels: seq![(spans@[0], "can't use this on "@ + site_name_plural@ + " (yet)"@)]
                    + unlabelled(spans@.drop_first()),
                notes: seq![
                    "Let Naga maintainers know that you ran into this at <https://github.com/gfx-rs/wgpu/issues/5320>, so they can prioritize it!"@,
                ],
            },
            Error::DiagnosticAttributeNotSupported { on_what, spans } => Report {
                message: "`@diagnostic(…)` attribute(s) on "@ + match on_what {
                    DiagnosticAttributeNotSupportedPosition::SemicolonInModulePosition => "semicolons"@,
                    DiagnosticAttributeNotSupportedPosition::Other { display_plural } => display_plural@,
                } + " are not supported"@,
                labels: unlabelled(spans@),
                notes: seq![
                    "`@diagnostic(…)` attributes are only permitted on `fn`s, some statements, and `switch`/`loop` bodies."@,
                    match on_what {
                        DiagnosticAttributeNotSupportedPosition::SemicolonInModulePosition =>
                            "If you meant to declare a diagnostic filter that applies to the entire module, move this line to the top of the file and remove the `@` symbol."@,
                        DiagnosticAttributeNotSupportedPosition::Other { .. } =>
                            "These attributes are well-formed, you likely just need to move them."@,
                    },
                ],
            },
            Error::SelectUnexpectedArgumentType { arg_span, arg_type } => noted_report(
                arg_span,
                "unexpected argument type for `select` call"@,
                "this value of type "@ + arg_type@,
                "expected a scalar or a `vecN` of scalars"@,
            ),
            Error::SelectRejectAndAcceptHaveNoCommonType { reject_span, reject_type, accept_span, accept_type } => Report {
                message: "type mismatch for reject and accept values in `select` call"@,
                labels: seq![
                    (reject_span, "reject value of type "@ + reject_type@),
                    (accept_span, "accept value of type "@ + accept_type@),
                ],
                notes: seq![],
            },
            Error::UnexpectedComponents(sp) => simple_report(sp, "unexpected components"@, "unexpected components"@),
            Error::UnexpectedOperationInConstContext(sp) => simple_report(sp, "this operation is not supported in a const context"@, "operation not supported here"@),
            Error::NotStorageTexture(sp) => simple_report(sp, "textureStore can only be applied to storage textures"@, "not a storage texture"@),
            Error::BadIncrDecrReferenceType(sp) => simple_report(sp, "increment/decrement operation requires a reference type of i32 or u32"@, "must be a reference type of i32 or u32"@),
            Error::InvalidBreakIf(sp) => simple_report(sp, "break-if is only allowed in continuing block"@, "not in a continuing block"@),
            Error::UnknownAddressSpace(sp) => simple_report(sp, "unknown address space"@, "unknown address space"@),
            Error::RepeatedAttribute(sp) => simple_report(sp, "repeated attribute"@, "repeated attribute"@),
            Error::UnknownAttribute(sp) => simple_report(sp, "unknown attribute"@, "unknown attribute"@),
            Error::UnknownBuiltin(sp) => simple_report(sp, "unknown builtin"@, "unknown builtin"@),
            Error::UnknownAccess(sp) => simple_report(sp, "unknown access"@, "unknown access"@),
            Error::UnknownType(sp) => simple_report(sp, "unknown type"@, "unknown type"@),
            Error::UnknownStorageFormat(sp) => simple_report(sp, "unknown storage format"@, "unknown storage format"@),
            Error::UnknownConservativeDepth(sp) => simple_report(sp, "unknown conservative depth"@, "unknown conservative depth"@),
            Error::InvalidSwitchSelector { span: sp } => simple_report(sp, "invalid switch selector"@, "invalid selector"@),
            Error::InvalidSwitchCase { span: sp } => simple_report(sp, "invalid switch case"@, "invalid case"@),
            Error::SwitchCaseTypeMismatch { span: sp } => simple_report(sp, "switch case type mismatch"@, "type mismatch"@),
            Error::NonPowerOfTwoAlignAttribute(sp) => simple_report(sp, "struct member alignment must be a power of 2"@, "must be a power of 2"@),
            Error::InconsistentBinding(sp) => simple_report(sp, "input/output binding is not consistent"@, "input/output binding is not consistent"@),
            Error::CalledEntryPoint(sp) => simple_report(sp, "entry point cannot be called"@, "entry point cannot be called"@),
            Error::TypeNotConstructible(sp) => simple_report(sp, "type is not constructible"@, "type is not constructible"@),
            Error::TypeNotInferable(sp) => simple_report(sp, "type not inferable"@, "type not inferable"@),
            Error::InvalidAddrOfOperand(sp) => simple_report(sp, "invalid operand for address-of operator"@, "invalid operand for address-of"@),
            Error::InvalidAtomicPointer(sp) => simple_report(sp, "atomic operation is done on a pointer to a non-atomic"@, "atomic pointer is invalid"@),
            Error::InvalidAtomicOperandType(sp) => simple_report(sp, "atomic operand type is inconsistent with the operation"@, "atomic operand type is invalid"@),
            Error::InvalidRayQueryPointer(sp) => simple_report(sp, "ray query operation is done on a pointer to a non-ray-query"@, "ray query pointer is invalid"@),
            Error::NotPointer(sp) => simple_report(sp, "the operand of the `*` operator must be a pointer"@, "expression is not a pointer"@),
            Error::ExpectedConstExprConcreteIntegerScalar(sp) => simple_report(sp, "must be a const-expression that resolves to a concrete integer scalar (`u32` or `i32`)"@, "must resolve to `u32` or `i32`"@),
            Error::ExpectedNonNegative(sp) => simple_report(sp, "must be non-negative (>= 0)"@, "must be non-negative"@),
            Error::ExpectedPositiveArrayLength(sp) => simple_report(sp, "array element count must be positive (> 0)"@, "must be positive"@),
            Error::MissingWorkgroupSize(sp) => simple_report(sp, "workgroup size is missing on compute shader entry point"@, "must be paired with a `@workgroup_size` attribute"@),
            Error::PipelineConstantIDValue(sp) => simple_report(sp, "pipeline constant ID must be between 0 and 65535 inclusive"@, "must be between 0 and 65535 inclusive"@),
            Error::NotBool(sp) => simple_report(sp, "must be a const-expression that resolves to a `bool`"@, "must resolve to `bool`"@),
            Error::ConstAssertFailed(sp) => simple_report(sp, "`const_assert` failure"@, "evaluates to `false`"@),
            Error::InvalidIdentifierUnderscore(sp) => noted_report(sp, "Identifier can't be `_`"@, "invalid identifier"@, "Use phony assignment instead (`_ =` notice the absence of `let` or `var`)"@),
            Error::FunctionReturnsVoid(sp) => noted_report(sp, "function does not return any value"@, ""@, "perhaps you meant to call the function in a separate statement?"@),
            Error::InvalidWorkGroupUniformLoad(sp) => noted_report(sp, "incorrect type passed to workgroupUniformLoad"@, ""@, "passed type must be a workgroup pointer"@),
            Error::DirectiveAfterFirstGlobalDecl { directive_span: sp } => noted_report(sp, "expected global declaration, but found a global directive"@, "written after first global declaration"@, "global directives are only allowed before global declarations; maybe hoist this closer to the top of the shader module?"@),
            Error::DiagnosticInvalidSeverity { severity_control_name_span: sp } => noted_report(sp, "invalid `diagnostic(…)` severity"@, "not a valid severity level"@, "See available severities at <https://www.w3.org/TR/WGSL/#diagnostic-severity>."@),
        }
    }
}

/// A single report made of the given parts.
fn single<'b>(message: String, labels: Vec<(Span, String)>, notes: Vec<String>) -> (r: ParseError<'b>)
    ensures
        r@ == ParseErrorView::Single(Report {
            message: message@,
            labels: labels_view(labels@),
            notes: strings_view(notes@),
        }),
{
    ParseError::Single { message, labels, notes }
}

fn label1(s: Span, t: String) -> (v: Vec<(Span, String)>)
    ensures
        labels_view(v@) == seq![(s, t@)],
{
    let mut v = Vec::new();
    v.push((s, t));
    proof {
        assert(labels_view(v@) =~= seq![(s, t@)]);
    }
    v
}

fn label2(s1: Span, t1: String, s2: Span, t2: String) -> (v: Vec<(Span, String)>)
    ensures
        labels_view(v@) == seq![(s1, t1@), (s2, t2@)],
{
    let mut v = Vec::new();
    v.push((s1, t1));
    v.push((s2, t2));
    proof {
        assert(labels_view(v@) =~= seq![(s1, t1@), (s2, t2@)]);
    }
    v
}

fn label3(s1: Span, t1: String, s2: Span, t2: String, s3: Span, t3: String) -> (v: Vec<(Span, String)>)
    ensures
        labels_view(v@) == seq![(s1, t1@), (s2, t2@), (s3, t3@)],
{
    let mut v = Vec::new();
    v.push((s1, t1));
    v.push((s2, t2));
    v.push((s3, t3));
    proof {
        assert(labels_view(v@) =~= seq![(s1, t1@), (s2, t2@), (s3, t3@)]);
    }
    v
}

fn no_labels() -> (v: Vec<(Span, String)>)
    ensures
        labels_view(v@) == Seq::<(Span, Seq<char>)>::empty(),
{
    let v = Vec::new();
    proof {
        assert(labels_view(v@) =~= Seq::<(Span, Seq<char>)>::empty());
    }
    v
}

fn no_notes() -> (v: Vec<String>)
    ensures
        strings_view(v@) == Seq::<Seq<char>>::empty(),
{
    let v = Vec::new();
    proof {
        assert(strings_view(v@) =~= Seq::<Seq<char>>::empty());
    }
    v
}

fn note1(n: String) -> (v: Vec<String>)
    ensures
        strings_view(v@) == seq![n@],
{
    let mut v = Vec::new();
    v.push(n);
    proof {
        assert(strings_view(v@) =~= seq![n@]);
    }
    v
}

fn note2(a: String, b: String) -> (v: Vec<String>)
    ensures
        strings_view(v@) == seq![a@, b@],
{
    let mut v = Vec::new();
    v.push(a);
    v.push(b);
    proof {
        assert(strings_view(v@) =~= seq![a@, b@]);
    }
    v
}

/// A report with one label and no notes.
fn simple<'b>(span: Span, message: &str, label: &str) -> (r: ParseError<'b>)
    ensures
        r@ == ParseErrorView::Single(simple_report(span, message@, label@)),
{
    single(lit(message), label1(span, lit(label)), no_notes())
}

/// A report with one label and no notes, from owned texts.
fn simple_owned<'b>(span: Span, message: String, label: String) -> (r: ParseError<'b>)
    ensures
        r@ == ParseErrorView::Single(simple_report(span, message@, label@)),
{
    single(message, label1(span, label), no_notes())
}

/// A report with one label and one note.
fn noted<'b>(span: Span, message: &str, label: &str, note: &str) -> (r: ParseError<'b>)
    ensures
        r@ == ParseErrorView::Single(noted_report(span, message@, label@, note@)),
{
    single(lit(message), label1(span, lit(label)), note1(lit(note)))
}

/// A report with one label and one note, from owned texts.
fn noted_owned<'b>(span: Span, message: String, label: String, note: String) -> (r: ParseError<'b>)
    ensures
        r@ == ParseErrorView::Single(noted_report(span, message@, label@, note@)),
{
    single(message, label1(span, label), note1(note))
}

/// Appends one "allowed type" note per type.
fn push_allowed_notes(notes: &mut Vec<String>, allowed: &Vec<String>)
    ensures
        strings_view(final(notes)@) == strings_view(old(notes)@) + allowed_type_notes(strings_view(allowed@)),
{
    let ghost start = strings_view(notes@);
    let mut i: usize = 0;
    while i < allowed.len()
        invariant
            i <= allowed@.len(),
            strings_view(notes@) == start + allowed_type_notes(strings_view(allowed@.subrange(0, i as int))),
        decreases allowed@.len() - i,
    {
        let ghost before = strings_view(notes@);
        notes.push(cat2("allowed type: ", allowed[i].as_str()));
        proof {
            assert(allowed@.subrange(0, i + 1) =~= allowed@.subrange(0, i as int).push(allowed@[i as int]));
            assert(strings_view(notes@) =~= before.push("allowed type: "@ + allowed@[i as int]@));
            assert(allowed_type_notes(strings_view(allowed@.subrange(0, i + 1))) =~=
                allowed_type_notes(strings_view(allowed@.subrange(0, i as int))).push("allowed type: "@ + allowed@[i as int]@));
        }
        i = i + 1;
    }
    proof {
        assert(allowed@.subrange(0, i as int) =~= allowed@);
    }
}

/// Appends each span with an empty label, starting at index `from`.
fn push_unlabelled(labels: &mut Vec<(Span, String)>, spans: &Vec<Span>, from: usize)
    requires
        from <= spans@.len(),
    ensures
        labels_view(final(labels)@) == labels_view(old(labels)@) + unlabelled(spans@.subrange(from as int, spans@.len() as int)),
{
    let ghost start = labels_view(labels@);
    let mut i: usize = from;
    while i < spans.len()
        invariant
            from <= i <= spans@.len(),
            labels_view(labels@) == start + unlabelled(spans@.subrange(from as int, i as int)),
        decreases spans@.len() - i,
    {
        let ghost before = labels_view(labels@);
        labels.push((spans[i], String::new()));
        proof {
            assert(spans@.subrange(from as int, i + 1) =~= spans@.subrange(from as int, i as int).push(spans@[i as int]));
            assert(labels_view(labels@) =~= before.push((spans@[i as int], Seq::<char>::empty())));
            assert(unlabelled(spans@.subrange(from as int, i + 1)) =~=
                unlabelled(spans@.subrange(from as int, i as int)).push((spans@[i as int], Seq::<char>::empty())));
        }
        i = i + 1;
    }
}

/// Appends each declaration of a reference cycle, labelled "cycle".
fn push_cycle_labels(labels: &mut Vec<(Span, String)>, path: &Vec<(Span, Span)>)
    ensures
        labels_view(final(labels)@) == labels_view(old(labels)@) + path@.map_values(|p: (Span, Span)| (p.0, "cycle"@)),
{
    let ghost start = labels_view(labels@);
    let mut i: usize = 0;
    while i < path.len()
        invariant
            i <= path@.len(),
            labels_view(labels@) == start + path@.subrange(0, i as int).map_values(|p: (Span, Span)| (p.0, "cycle"@)),
        decreases path@.len() - i,
    {
        let ghost before = labels_view(labels@);
        let (decl, _reference) = path[i];
        labels.push((decl, lit("cycle")));
        proof {
            assert(path@.subrange(0, i + 1) =~= path@.subrange(0, i as int).push(path@[i as int]));
            assert(labels_view(labels@) =~= before.push((decl, "cycle"@)));
            assert(path@.subrange(0, i + 1).map_values(|p: (Span, Span)| (p.0, "cycle"@)) =~=
                path@.subrange(0, i as int).map_values(|p: (Span, Span)| (p.0, "cycle"@)).push((decl, "cycle"@)));
        }
        i = i + 1;
    }
    proof {
        assert(path@.subrange(0, i as int) =~= path@);
    }
}

/// The tracking-issue note.
fn tracking_note_string(num: u32) -> (r: String)
    ensures
        r@ == tracking_note(num),
{
    let n = dec_string(num as u64);
    cat3(
        "Let Naga maintainers know that you ran into this at <https://github.com/gfx-rs/wgpu/issues/",
        n.as_str(),
        ">, so they can prioritize it!",
    )
}

impl<'a> Error<'a> {
    /// Words the error as a single report against `source`.
    #[verifier::rlimit(100)]
    pub fn as_parse_error(&self, source: &'a str) -> (r: ParseError<'a>)
        requires
            self.reportable(source.spec_bytes()),
        ensures
            r@ == ParseErrorView::Single(self.report(source.spec_bytes())),
    {
        match self {
            Error::Unexpected(sp, expected) => {
                let e = expected_string(*expected);
                let t = source_slice(source, *sp);
                let d = str_debug(t);
                single(
                    cat4("expected ", e.as_str(), ", found ", d.as_str()),
                    label1(*sp, cat2("expected ", e.as_str())),
                    no_notes(),
                )
            },
            Error::BadNumber(sp, err) => {
                let m = err.message();
                let t = source_slice(source, *sp);
                single(cat4(m.as_str(), ": `", t, "`"), label1(*sp, err.message()), no_notes())
            },
            Error::BadMatrixScalarKind(sp, scalar) => {
                let s = scalar.to_wgsl_for_diagnostics();
                simple_owned(
                    *sp,
                    cat3("matrix scalar type must be floating-point, but found `", s.as_str(), "`"),
                    lit("must be floating-point (e.g. `f32`)"),
                )
            },
            Error::BadAccessor(sp) => {
                let t = source_slice(source, *sp);
                simple_owned(*sp, cat3("invalid field accessor `", t, "`"), lit("invalid accessor"))
            },
            Error::UnknownIdent(sp, ident) => simple_owned(
                *sp,
                cat3("no definition in scope for identifier: `", ident, "`"),
                lit("unknown identifier"),
            ),
            Error::UnknownScalarType(sp) => {
                let t = source_slice(source, *sp);
                noted_owned(
                    *sp,
                    cat3("unknown scalar type: `", t, "`"),
                    lit("unknown scalar type"),
                    lit("Valid scalar types are f32, f64, i32, u32, bool"),
                )
            },
            Error::BadTextureSampleType { span, scalar } => {
                let s = scalar.to_wgsl_for_diagnostics();
                simple_owned(
                    *span,
                    cat2("texture sample type must be one of f32, i32 or u32, but found ", s.as_str()),
                    lit("must be one of f32, i32 or u32"),
                )
            },
            Error::BadTexture(sp) => {
                let t = source_slice(source, *sp);
                simple_owned(
                    *sp,
                    cat3("expected an image, but found `", t, "` which is not an image"),
                    lit("not an image"),
                )
            },
            Error::BadTypeCast { span, from_type, to_type } => {
                let msg = cat4("cannot cast a ", from_type.as_str(), " to a ", to_type.as_str());
                let label = msg.clone();
                simple_owned(*span, msg, label)
            },
            Error::InvalidResolve(e) => single(lit(e.message.as_str()), no_labels(), no_notes()),
            Error::InvalidForInitializer(sp) => {
                let t = source_slice(source, *sp);
                simple_owned(
                    *sp,
                    cat3("for(;;) initializer is not an assignment or a function call: `", t, "`"),
                    lit("not an assignment or function call"),
                )
            },
            Error::InvalidGatherComponent(sp) => {
                let t = source_slice(source, *sp);
                simple_owned(
                    *sp,
                    cat3("textureGather component `", t, "` doesn't exist, must be 0, 1, 2, or 3"),
                    lit("invalid component"),
                )
            },
            Error::InvalidConstructorComponentType(sp, component) => {
                let c = dec_string_signed(*component as i64);
                simple_owned(
                    *sp,
                    cat3("invalid type for constructor component at index [", c.as_str(), "]"),
                    lit("invalid component type"),
                )
            },
            Error::ReservedIdentifierPrefix(sp) => {
                let t = source_slice(source, *sp);
                simple_owned(
                    *sp,
                    cat3("Identifier starts with a reserved prefix: `", t, "`"),
                    lit("invalid identifier"),
                )
            },
            Error::UnknownEnableExtension(sp, word) => noted_owned(
                *sp,
                cat3("unknown enable-extension `", word, "`"),
                lit(""),
                lit("See available extensions at <https://www.w3.org/TR/WGSL/#enable-extension>."),
            ),
            Error::Redefinition { previous, current } => single(
                lit("redefinition of identifier"),
                label2(*previous, lit("previous definition"), *current, lit("redefinition")),
                no_notes(),
            ),
            Error::RecursiveDeclaration { ident, usage } => single(
                lit("recursive declaration"),
                label2(*ident, lit("declaration"), *usage, lit("uses itself here")),
                no_notes(),
            ),
            Error::CyclicDeclaration { ident, path } => {
                let mut labels = label1(*ident, lit("cycle starts here"));
                push_cycle_labels(&mut labels, path);
                single(lit("cyclic declaration"), labels, no_notes())
            },
            Error::UnknownLanguageExtension(sp, name) => noted_owned(
                *sp,
                cat3("unknown language extension `", name, "`"),
                lit(""),
                lit("See available extensions at <https://www.w3.org/TR/WGSL/#language-extensions-sec>."),
            ),
            Error::UnknownDiagnosticRuleName(sp) => {
                let t = source_slice(source, *sp);
                noted_owned(
                    *sp,
                    cat3("unknown `diagnostic(…)` rule name `", t, "`"),
                    lit("not a valid diagnostic rule name"),
                    lit("See available trigger rules at <https://www.w3.org/TR/WGSL/#filterable-triggering-rules>."),
                )
            },
            Error::SizeAttributeTooLow(sp, min_size) => {
                let n = dec_string(*min_size as u64);
                simple_owned(
                    *sp,
                    cat2("struct member size must be at least ", n.as_str()),
                    cat2("must be at least ", n.as_str()),
                )
            },
            Error::AlignAttributeTooLow(sp, min_align) => {
                let n = min_align.display_string();
                simple_owned(
                    *sp,
                    cat2("struct member alignment must be at least ", n.as_str()),
                    cat2("must be at least ", n.as_str()),
                )
            },
            Error::WrongArgumentCount { span, expected, found } => {
                let r = range_debug_string(expected);
                let f = dec_string(*found as u64);
                simple_owned(
                    *span,
                    cat4("wrong number of arguments: expected ", r.as_str(), ", found ", f.as_str()),
                    lit("wrong number of arguments"),
                )
            },
            Error::TooManyArguments { function, call_span, arg_span, max_arguments } => {
                let next = dec_string((*max_arguments + 1) as u64);
                let max = dec_string(*max_arguments as u64);
                single(
                    cat3("too many arguments passed to `", function.as_str(), "`"),
                    label2(*call_span, lit(""), *arg_span, cat2("unexpected argument #", next.as_str())),
                    note1(cat5("The `", function.as_str(), "` function accepts at most ", max.as_str(), " argument(s)")),
                )
            },
            Error::WrongArgumentType { function, call_span, arg_span, arg_index, arg_ty, allowed } => {
                let n = dec_string((*arg_index + 1) as u64);
                let message = cat5("wrong type passed as argument #", n.as_str(), " to `", function.as_str(), "`");
                let labels = label2(
                    *call_span,
                    lit(""),
                    *arg_span,
                    cat5("argument #", n.as_str(), " has type `", arg_ty.as_str(), "`"),
                );
                let mut notes = note1(cat5("`", function.as_str(), "` accepts the following types for argument #", n.as_str(), ":"));
                push_allowed_notes(&mut notes, allowed);
                single(message, labels, notes)
            },
            Error::InitializationTypeMismatch { name, expected, got } => {
                let t = source_slice(source, *name);
                let mut message = cat4("the type of `", t, "` is expected to be `", expected.as_str());
                message.append("`, but got `");
                message.append(got.as_str());
                message.append("`");
                simple_owned(*name, message, cat3("definition of `", t, "`"))
            },
            Error::DeclMissingTypeAndInit(sp) => {
                let t = source_slice(source, *sp);
                simple_owned(
                    *sp,
                    cat3("declaration of `", t, "` needs a type specifier or initializer"),
                    lit("needs a type specifier or initializer"),
                )
            },
            Error::MissingAttribute(name, sp) => {
                let t = source_slice(source, *sp);
                simple_owned(
                    *sp,
                    cat5("variable `", t, "` needs a '", name, "' attribute"),
                    cat3("definition of `", t, "`"),
                )
            },
            Error::NotReference(what, sp) => simple_owned(
                *sp,
                cat2(what, " must be a reference"),
                lit("expression is not a reference"),
            ),
            Error::InvalidAssignment { span, ty } => match ty {
                InvalidAssignmentType::Swizzle => single(
                    lit("invalid left-hand side of assignment"),
                    label1(*span, lit("cannot assign to this expression")),
                    note2(
                        lit("WGSL does not support assignments to swizzles"),
                        lit("consider assigning each component individually"),
                    ),
                ),
                InvalidAssignmentType::ImmutableBinding(binding_span) => {
                    let t = source_slice(source, *binding_span);
                    single(
                        lit("invalid left-hand side of assignment"),
                        label2(
                            *span,
                            lit("cannot assign to this expression"),
                            *binding_span,
                            lit("this is an immutable binding"),
                        ),
                        note1(cat3("consider declaring `", t, "` with `var` instead of `let`")),
                    )
                },
                InvalidAssignmentType::Other => single(
                    lit("invalid left-hand side of assignment"),
                    label1(*span, lit("cannot assign to this expression")),
                    no_notes(),
                ),
            },
            Error::ReservedKeyword(sp) => {
                let t = source_slice(source, *sp);
                simple_owned(
                    *sp,
                    cat3("name `", t, "` is a reserved keyword"),
                    cat3("definition of `", t, "`"),
                )
            },
            Error::InconsistentArgumentType {
                function, call_span, arg_span, arg_index, arg_ty,
                inconsistent_span, inconsistent_index, inconsistent_ty, allowed,
            } => {
                let n = dec_string((*arg_index + 1) as u64);
                let ni = dec_string((*inconsistent_index + 1) as u64);
                let message = cat5("inconsistent type passed as argument #", n.as_str(), " to `", function.as_str(), "`");
                let labels = label3(
                    *call_span,
                    lit(""),
                    *arg_span,
                    cat4("argument #", n.as_str(), " has type ", arg_ty.as_str()),
                    *inconsistent_span,
                    cat3("this argument has type ", inconsistent_ty.as_str(), ", which constrains subsequent arguments"),
                );
                let mut notes = note2(
                    cat5("Because argument #", ni.as_str(), " has type ", inconsistent_ty.as_str(), ", only the following types"),
                    cat3("(or types that automatically convert to them) are accepted for argument #", n.as_str(), ":"),
                );
                push_allowed_notes(&mut notes, allowed);
                single(message, labels, notes)
            },
            Error::FunctionMustUseUnused(call) => {
                let t = source_slice(source, *call);
                single(
                    lit("unused return value from function annotated with @must_use"),
                    label1(*call, lit("")),
                    note2(
                        cat3("function '", t, "' is declared with `@must_use` attribute"),
                        lit("use a phony assignment or declare a value using the function call as the initializer"),
                    ),
                )
            },
            Error::FunctionMustUseReturnsVoid(attr, signature) => single(
                lit("function annotated with @must_use but does not return any value"),
                label2(*attr, lit(""), *signature, lit("")),
                note1(lit("declare a return type or remove the attribute")),
            ),
            Error::Internal(message) => single(
                lit("internal WGSL front end error"),
                no_labels(),
                note1(lit(message)),
            ),
            Error::ConstantEvaluatorError(e, sp) => simple_owned(*sp, lit(e.message.as_str()), lit("see msg")),
            Error::AutoConversion(err) => single(
                cat5("automatic conversions cannot convert `", err.source_type.as_str(), "` to `", err.dest_type.as_str(), "`"),
                label2(
                    err.dest_span,
                    cat3("a value of type ", err.dest_type.as_str(), " is required here"),
                    err.source_span,
                    cat2("this expression has type ", err.source_type.as_str()),
                ),
                no_notes(),
            ),
            Error::AutoConversionLeafScalar(err) => single(
                cat5("automatic conversions cannot convert elements of `", err.source_type.as_str(), "` to `", err.dest_scalar.as_str(), "`"),
                label2(
                    err.dest_span,
                    cat3("a value with elements of type ", err.dest_scalar.as_str(), " is required here"),
                    err.source_span,
                    cat2("this expression has type ", err.source_type.as_str()),
                ),
                no_notes(),
            ),
            Error::ConcretizationFailed(err) => single(
                cat2("failed to convert expression to a concrete type: ", err.inner.message.as_str()),
                label1(err.expr_span, cat2("this expression has type ", err.expr_type.as_str())),
                note1(cat3("the expression should have been converted to have ", err.scalar.as_str(), " scalar type")),
            ),
            Error::ExceededLimitForNestedBraces { span, limit } => {
                let l = dec_string(*limit as u64);
                noted_owned(
                    *span,
                    lit("brace nesting limit reached"),
                    lit("limit reached at this brace"),
                    cat2("nesting limit is currently set to ", l.as_str()),
                )
            },
            Error::EnableExtensionNotYetImplemented { kind, span } => noted_owned(
                *span,
                cat3("the `", kind.ident, "` enable-extension is not yet supported"),
                lit("this enable-extension specifies standard functionality which is not yet implemented in Naga"),
                tracking_note_string(kind.tracking_issue_num),
            ),
            Error::EnableExtensionNotEnabled { kind, span } => {
                let ident = kind.to_ident();
                let note = match kind {
                    EnableExtension::Unimplemented(u) => {
                        let t = tracking_note_string(u.tracking_issue_num);
                        cat2("This \"Enable Extension\" is not yet implemented. ", t.as_str())
                    },
                    EnableExtension::Implemented(_) => cat3(
                        "You can enable this extension by adding `enable ",
                        ident,
                        ";` at the top of the shader, before any other items.",
                    ),
                };
                noted_owned(
                    *span,
                    cat3("the `", ident, "` enable extension is not enabled"),
                    cat3("the `", ident, "` \"Enable Extension\" is needed for this functionality, but it is not currently enabled."),
                    note,
                )
            },
            Error::LanguageExtensionNotYetImplemented { kind, span } => noted_owned(
                *span,
                cat3("the `", kind.ident, "` language extension is not yet supported"),
                lit(""),
                tracking_note_string(kind.tracking_issue_num),
            ),
            Error::DiagnosticDuplicateTriggeringRule(e) => single(
                lit("found conflicting `diagnostic(…)` rule(s)"),
                label2(e.triggering_rule_spans[0], lit("first rule"), e.triggering_rule_spans[1], lit("second rule")),
                note2(
                    lit("Multiple `diagnostic(…)` rules with the same rule name conflict unless they are directives and the severity is the same."),
                    lit("You should delete the rule you don't want."),
                ),
            ),
            Error::DiagnosticAttributeNotYetImplementedAtParseSite { site_name_plural, spans } => {
                let mut labels = label1(spans[0], cat3("can't use this on ", site_name_plural, " (yet)"));
                push_unlabelled(&mut labels, spans, 1);
                proof {
                    assert(spans@.subrange(1, spans@.len() as int) =~= spans@.drop_first());
                }
                single(
                    lit("`@diagnostic(…)` attribute(s) not yet implemented"),
                    labels,
                    note1(lit("Let Naga maintainers know that you ran into this at <https://github.com/gfx-rs/wgpu/issues/5320>, so they can prioritize it!")),
                )
            },
            Error::DiagnosticAttributeNotSupported { on_what, spans } => {
                let plural = match on_what {
                    DiagnosticAttributeNotSupportedPosition::SemicolonInModulePosition => "semicolons",
                    DiagnosticAttributeNotSupportedPosition::Other { display_plural } => *display_plural,
                };
                let second = match on_what {
                    DiagnosticAttributeNotSupportedPosition::SemicolonInModulePosition => lit(
                        "If you meant to declare a diagnostic filter that applies to the entire module, move this line to the top of the file and remove the `@` symbol.",
                    ),
                    DiagnosticAttributeNotSupportedPosition::Other { .. } => lit(
                        "These attributes are well-formed, you likely just need to move them.",
                    ),
                };
                let mut labels = no_labels();
                push_unlabelled(&mut labels, spans, 0);
                proof {
                    assert(spans@.subrange(0, spans@.len() as int) =~= spans@);
                    assert(Seq::<(Span, Seq<char>)>::empty() + unlabelled(spans@) =~= unlabelled(spans@));
                }
                single(
                    cat3("`@diagnostic(…)` attribute(s) on ", plural, " are not supported"),
                    labels,
                    note2(
                        lit("`@diagnostic(…)` attributes are only permitted on `fn`s, some statements, and `switch`/`loop` bodies."),
                        second,
                    ),
                )
            },
            Error::SelectUnexpectedArgumentType { arg_span, arg_type } => noted_owned(
                *arg_span,
                lit("unexpected argument type for `select` call"),
                cat2("this value of type ", arg_type.as_str()),
                lit("expected a scalar or a `vecN` of scalars"),
            ),
            Error::SelectRejectAndAcceptHaveNoCommonType { reject_span, reject_type, accept_span, accept_type } => single(
                lit("type mismatch for reject and accept values in `select` call"),
                label2(
                    *reject_span,
                    cat2("reject value of type ", reject_type.as_str()),
                    *accept_span,
                    cat2("accept value of type ", accept_type.as_str()),
                ),
                no_notes(),
            ),
            Error::UnexpectedComponents(sp) => simple(*sp, "unexpected components", "unexpected components"),
            Error::UnexpectedOperationInConstContext(sp) => simple(*sp, "this operation is not supported in a const context", "operation not supported here"),
            Error::NotStorageTexture(sp) => simple(*sp, "textureStore can only be applied to storage textures", "not a storage texture"),
            Error::BadIncrDecrReferenceType(sp) => simple(*sp, "increment/decrement operation requires a reference type of i32 or u32", "must be a reference type of i32 or u32"),
            Error::InvalidBreakIf(sp) => simple(*sp, "break-if is only allowed in continuing block", "not in a continuing block"),
            Error::UnknownAddressSpace(sp) => simple(*sp, "unknown address space", "unknown address space"),
            Error::RepeatedAttribute(sp) => simple(*sp, "repeated attribute", "repeated attribute"),
            Error::UnknownAttribute(sp) => simple(*sp, "unknown attribute", "unknown attribute"),
            Error::UnknownBuiltin(sp) => simple(*sp, "unknown builtin", "unknown builtin"),
            Error::UnknownAccess(sp) => simple(*sp, "unknown access", "unknown access"),
            Error::UnknownType(sp) => simple(*sp, "unknown type", "unknown type"),
            Error::UnknownStorageFormat(sp) => simple(*sp, "unknown storage format", "unknown storage format"),
            Error::UnknownConservativeDepth(sp) => simple(*sp, "unknown conservative depth", "unknown conservative depth"),
            Error::InvalidSwitchSelector { span: sp } => simple(*sp, "invalid switch selector", "invalid selector"),
            Error::InvalidSwitchCase { span: sp } => simple(*sp, "invalid switch case", "invalid case"),
            Error::SwitchCaseTypeMismatch { span: sp } => simple(*sp, "switch case type mismatch", "type mismatch"),
            Error::NonPowerOfTwoAlignAttribute(sp) => simple(*sp, "struct member alignment must be a power of 2", "must be a power of 2"),
            Error::InconsistentBinding(sp) => simple(*sp, "input/output binding is not consistent", "input/output binding is not consistent"),
            Error::CalledEntryPoint(sp) => simple(*sp, "entry point cannot be called", "entry point cannot be called"),
            Error::TypeNotConstructible(sp) => simple(*sp, "type is not constructible", "type is not constructible"),
            Error::TypeNotInferable(sp) => simple(*sp, "type not inferable", "type not inferable"),
            Error::InvalidAddrOfOperand(sp) => simple(*sp, "invalid operand for address-of operator", "invalid operand for address-of"),
            Error::InvalidAtomicPointer(sp) => simple(*sp, "atomic operation is done on a pointer to a non-atomic", "atomic pointer is invalid"),
            Error::InvalidAtomicOperandType(sp) => simple(*sp, "atomic operand type is inconsistent with the operation", "atomic operand type is invalid"),
            Error::InvalidRayQueryPointer(sp) => simple(*sp, "ray query operation is done on a pointer to a non-ray-query", "ray query pointer is invalid"),
            Error::NotPointer(sp) => simple(*sp, "the operand of the `*` operator must be a pointer", "expression is not a pointer"),
            Error::ExpectedConstExprConcreteIntegerScalar(sp) => simple(*sp, "must be a const-expression that resolves to a concrete integer scalar (`u32` or `i32`)", "must resolve to `u32` or `i32`"),
            Error::ExpectedNonNegative(sp) => simple(*sp, "must be non-negative (>= 0)", "must be non-negative"),
            Error::ExpectedPositiveArrayLength(sp) => simple(*sp, "array element count must be positive (> 0)", "must be positive"),
            Error::MissingWorkgroupSize(sp) => simple(*sp, "workgroup size is missing on compute shader entry point", "must be paired with a `@workgroup_size` attribute"),
            Error::PipelineConstantIDValue(sp) => simple(*sp, "pipeline constant ID must be between 0 and 65535 inclusive", "must be between 0 and 65535 inclusive"),
            Error::NotBool(sp) => simple(*sp, "must be a const-expression that resolves to a `bool`", "must resolve to `bool`"),
            Error::ConstAssertFailed(sp) => simple(*sp, "`const_assert` failure", "evaluates to `false`"),
            Error::InvalidIdentifierUnderscore(sp) => noted(*sp, "Identifier can't be `_`", "invalid identifier", "Use phony assignment instead (`_ =` notice the absence of `let` or `var`)"),
            Error::FunctionReturnsVoid(sp) => noted(*sp, "function does not return any value", "", "perhaps you meant to call the function in a separate statement?"),
            Error::InvalidWorkGroupUniformLoad(sp) => noted(*sp, "incorrect type passed to workgroupUniformLoad", "", "passed type must be a workgroup pointer"),
            Error::DirectiveAfterFirstGlobalDecl { directive_span: sp } => noted(*sp, "expected global declaration, but found a global directive", "written after first global declaration", "global directives are only allowed before global declarations; maybe hoist this closer to the top of the shader module?"),
            Error::DiagnosticInvalidSeverity { severity_control_name_span: sp } => noted(*sp, "invalid `diagnostic(…)` severity", "not a valid severity level", "See available severities at <https://www.w3.org/TR/WGSL/#diagnostic-severity>."),
        }
    }
}

} // verus!
