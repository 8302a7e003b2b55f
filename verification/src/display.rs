//! The one-line description of an error (what `Display` prints), and the
//! `Debug` rendering it falls back on.

use vstd::prelude::*;
use vstd::string::*;
use crate::error::{Error, strings_view};
use crate::text::{dec, dec_int, str_debug_text, lit, push_dec, push_dec_signed};
use crate::debug::{
    span_debug, spans_debug, span_pairs_debug, strings_debug, number_error_debug, expected_debug,
    alignment_debug, invalid_assignment_debug, resolve_error_debug, constant_evaluator_error_debug,
    auto_conversion_debug, auto_conversion_leaf_scalar_debug, concretization_failed_debug,
    unimplemented_enable_debug, enable_extension_debug, unimplemented_language_debug,
    conflicting_rule_debug, position_debug, push_span_debug, push_spans_debug, push_span_pairs_debug,
    push_strings_debug, push_str_debug, push_expected_debug, push_alignment_debug,
    push_invalid_assignment_debug, push_resolve_error_debug, push_constant_evaluator_error_debug,
    push_auto_conversion_debug, push_auto_conversion_leaf_scalar_debug,
    push_concretization_failed_debug, push_unimplemented_enable_debug, push_enable_extension_debug,
    push_unimplemented_language_debug, push_conflicting_rule_debug, push_position_debug,
    number_error_debug_string,
};
use crate::words::{scalar_debug, range_debug, range_debug_string};

verus! {

impl<'a> Error<'a> {
    /// The variants whose description is their `Debug` rendering.
    pub open spec fn displays_by_debug(&self) -> bool {
        match *self {
            Error::Redefinition { .. }
            | Error::RecursiveDeclaration { .. }
            | Error::CyclicDeclaration { .. }
            | Error::InvalidSwitchSelector { .. }
            | Error::InvalidSwitchCase { .. }
            | Error::SwitchCaseTypeMismatch { .. }
            | Error::CalledEntryPoint(_)
            | Error::WrongArgumentCount { .. }
            | Error::TooManyArguments { .. }
            | Error::WrongArgumentType { .. }
            | Error::InconsistentArgumentType { .. }
            | Error::FunctionReturnsVoid(_)
            | Error::FunctionMustUseUnused(_)
            | Error::FunctionMustUseReturnsVoid(_, _)
            | Error::InvalidWorkGroupUniformLoad(_)
            | Error::Internal(_)
            | Error::ExpectedConstExprConcreteIntegerScalar(_)
            | Error::ExpectedNonNegative(_)
            | Error::ExpectedPositiveArrayLength(_)
            | Error::MissingWorkgroupSize(_)
            | Error::ConstantEvaluatorError(_, _)
            | Error::AutoConversion(_)
            | Error::AutoConversionLeafScalar(_)
            | Error::ConcretizationFailed(_)
            | Error::ExceededLimitForNestedBraces { .. }
            | Error::PipelineConstantIDValue(_)
            | Error::NotBool(_)
            | Error::ConstAssertFailed(_)
            | Error::DirectiveAfterFirstGlobalDecl { .. }
            | Error::EnableExtensionNotYetImplemented { .. }
            | Error::EnableExtensionNotEnabled { .. }
            | Error::LanguageExtensionNotYetImplemented { .. }
            | Error::DiagnosticInvalidSeverity { .. }
            | Error::DiagnosticDuplicateTriggeringRule(_)
            | Error::DiagnosticAttributeNotYetImplementedAtParseSite { .. }
            | Error::DiagnosticAttributeNotSupported { .. }
            | Error::SelectUnexpectedArgumentType { .. }
            | Error::SelectRejectAndAcceptHaveNoCommonType { .. } => true,
            _ => false,
        }
    }

    /// The `Debug` rendering of the variants that [`Error::displays_by_debug`]
    /// selects (the others have a description of their own and render as
    /// the empty text here).
    pub open spec fn fallback_debug(&self) -> Seq<char> {
        match *self {
            Error::CalledEntryPoint(sp) => "CalledEntryPoint("@ + span_debug(sp) + ")"@,
            Error::FunctionReturnsVoid(sp) => "FunctionReturnsVoid("@ + span_debug(sp) + ")"@,
            Error::FunctionMustUseUnused(sp) => "FunctionMustUseUnused("@ + span_debug(sp) + ")"@,
            Error::InvalidWorkGroupUniformLoad(sp) => "InvalidWorkGroupUniformLoad("@ + span_debug(sp) + ")"@,
            Error::ExpectedConstExprConcreteIntegerScalar(sp) => "ExpectedConstExprConcreteIntegerScalar("@ + span_debug(sp) + ")"@,
            Error::ExpectedNonNegative(sp) => "ExpectedNonNegative("@ + span_debug(sp) + ")"@,
            Error::ExpectedPositiveArrayLength(sp) => "ExpectedPositiveArrayLength("@ + span_debug(sp) + ")"@,
            Error::MissingWorkgroupSize(sp) => "MissingWorkgroupSize("@ + span_debug(sp) + ")"@,
            Error::PipelineConstantIDValue(sp) => "PipelineConstantIDValue("@ + span_debug(sp) + ")"@,
            Error::NotBool(sp) => "NotBool("@ + span_debug(sp) + ")"@,
            Error::ConstAssertFailed(sp) => "ConstAssertFailed("@ + span_debug(sp) + ")"@,
            Error::Redefinition { previous, current } => "Redefinition { previous: "@ + span_debug(previous) + ", current: "@ + span_debug(current) + " }"@,
            Error::RecursiveDeclaration { ident, usage } => "RecursiveDeclaration { ident: "@ + span_debug(ident) + ", usage: "@ + span_debug(usage) + " }"@,
            Error::InvalidSwitchSelector { span } => "InvalidSwitchSelector { span: "@ + span_debug(span) + " }"@,
            Error::InvalidSwitchCase { span } => "InvalidSwitchCase { span: "@ + span_debug(span) + " }"@,
            Error::SwitchCaseTypeMismatch { span } => "SwitchCaseTypeMismatch { span: "@ + span_debug(span) + " }"@,
            Error::DirectiveAfterFirstGlobalDecl { directive_span } => "DirectiveAfterFirstGlobalDecl { directive_span: "@ + span_debug(directive_span) + " }"@,
            Error::DiagnosticInvalidSeverity { severity_control_name_span } => "DiagnosticInvalidSeverity { severity_control_name_span: "@ + span_debug(severity_control_name_span) + " }"@,
            Error::CyclicDeclaration { ident, path } =>
                "CyclicDeclaration { ident: "@ + span_debug(ident) + ", path: "@ + span_pairs_debug(path@) + " }"@,
            Error::WrongArgumentCount { span, expected, found } =>
                "WrongArgumentCount { span: "@ + span_debug(span) + ", expected: "@ + range_debug(expected)
                    + ", found: "@ + dec(found as nat) + " }"@,
            Error::TooManyArguments { function, call_span, arg_span, max_arguments } =>
                "TooManyArguments { function: "@ + str_debug_text(function@) + ", call_span: "@ + span_debug(call_span)
                    + ", arg_span: "@ + span_debug(arg_span) + ", max_arguments: "@ + dec(max_arguments as nat) + " }"@,
            Error::WrongArgumentType { function, call_span, arg_span, arg_index, arg_ty, allowed } =>
                "WrongArgumentType { function: "@ + str_debug_text(function@) + ", call_span: "@ + span_debug(call_span)
                    + ", arg_span: "@ + span_debug(arg_span) + ", arg_index: "@ + dec(arg_index as nat)
                    + ", arg_ty: "@ + str_debug_text(arg_ty@) + ", allowed: "@ + strings_debug(strings_view(allowed@)) + " }"@,
            Error::InconsistentArgumentType {
                function, call_span, arg_span, arg_index, arg_ty,
                inconsistent_span, inconsistent_index, inconsistent_ty, allowed,
            } =>
                "InconsistentArgumentType { function: "@ + str_debug_text(function@) + ", call_span: "@ + span_debug(call_span)
                    + ", arg_span: "@ + span_debug(arg_span) + ", arg_index: "@ + dec(arg_index as nat)
                    + ", arg_ty: "@ + str_debug_text(arg_ty@) + ", inconsistent_span: "@ + span_debug(inconsistent_span)
                    + ", inconsistent_index: "@ + dec(inconsistent_index as nat)
                    + ", inconsistent_ty: "@ + str_debug_text(inconsistent_ty@)
                    + ", allowed: "@ + strings_debug(strings_view(allowed@)) + " }"@,
            Error::FunctionMustUseReturnsVoid(a, b) =>
                "FunctionMustUseReturnsVoid("@ + span_debug(a) + ", "@ + span_debug(b) + ")"@,
            Error::Internal(message) => "Internal("@ + str_debug_text(message@) + ")"@,
            Error::ConstantEvaluatorError(e, sp) =>
                "ConstantEvaluatorError("@ + constant_evaluator_error_debug(*e) + ", "@ + span_debug(sp) + ")"@,
            Error::AutoConversion(e) => "AutoConversion("@ + auto_conversion_debug(*e) + ")"@,
            Error::AutoConversionLeafScalar(e) =>
                "AutoConversionLeafScalar("@ + auto_conversion_leaf_scalar_debug(*e) + ")"@,
            Error::ConcretizationFailed(e) => "ConcretizationFailed("@ + concretization_failed_debug(*e) + ")"@,
            Error::ExceededLimitForNestedBraces { span, limit } =>
                "ExceededLimitForNestedBraces { span: "@ + span_debug(span) + ", limit: "@ + dec(limit as nat) + " }"@,
            Error::EnableExtensionNotYetImplemented { kind, span } =>
                "EnableExtensionNotYetImplemented { kind: "@ + unimplemented_enable_debug(kind) + ", span: "@ + span_debug(span) + " }"@,
            Error::EnableExtensionNotEnabled { kind, span } =>
                "EnableExtensionNotEnabled { kind: "@ + enable_extension_debug(kind) + ", span: "@ + span_debug(span) + " }"@,
            Error::LanguageExtensionNotYetImplemented { kind, span } =>
                "LanguageExtensionNotYetImplemented { kind: "@ + unimplemented_language_debug(kind) + ", span: "@ + span_debug(span) + " }"@,
            Error::DiagnosticDuplicateTriggeringRule(e) =>
                "DiagnosticDuplicateTriggeringRule("@ + conflicting_rule_debug(e) + ")"@,
            Error::DiagnosticAttributeNotYetImplementedAtParseSite { site_name_plural, spans } =>
                "DiagnosticAttributeNotYetImplementedAtParseSite { site_name_plural: "@ + str_debug_text(site_name_plural@)
                    + ", spans: "@ + spans_debug(spans@) + " }"@,
            Error::DiagnosticAttributeNotSupported { on_what, spans } =>
                "DiagnosticAttributeNotSupported { on_what: "@ + position_debug(on_what) + ", spans: "@ + spans_debug(spans@) + " }"@,
            Error::SelectUnexpectedArgumentType { arg_span, arg_type } =>
                "SelectUnexpectedArgumentType { arg_span: "@ + span_debug(arg_span) + ", arg_type: "@ + str_debug_text(arg_type@) + " }"@,
            Error::SelectRejectAndAcceptHaveNoCommonType { reject_span, reject_type, accept_span, accept_type } =>
                "SelectRejectAndAcceptHaveNoCommonType { reject_span: "@ + span_debug(reject_span)
                    + ", reject_type: "@ + str_debug_text(reject_type@) + ", accept_span: "@ + span_debug(accept_span)
                    + ", accept_type: "@ + str_debug_text(accept_type@) + " }"@,
            _ => Seq::empty(),
        }
    }

    /// The one-line description of the error.
    pub open spec fn display(&self) -> Seq<char> {
        match *self {
            Error::Unexpected(sp, expected) =>
                "Unexpected token at "@ + span_debug(sp) + ", expected "@ + expected_debug(expected),
            Error::BadNumber(sp, err) => "Bad number at "@ + span_debug(sp) + ": "@ + number_error_debug(err),
            Error::BadMatrixScalarKind(sp, scalar) =>
                "Bad matrix scalar kind at "@ + span_debug(sp) + ": "@ + scalar_debug(scalar),
            Error::BadTypeCast { span, from_type, to_type } =>
                "Bad type cast at "@ + span_debug(span) + ": "@ + from_type@ + " to "@ + to_type@,
            Error::BadTextureSampleType { span, scalar } =>
                "Bad texture sample type at "@ + span_debug(span) + ": "@ + scalar_debug(scalar),
            Error::InvalidResolve(err) => "Invalid resolve: "@ + resolve_error_debug(err),
            Error::InvalidConstructorComponentType(sp, idx) =>
                "Invalid constructor component type at "@ + span_debug(sp) + ", index "@ + dec_int(idx as int),
            Error::UnknownIdent(sp, ident) => "Unknown identifier '"@ + ident@ + "' at "@ + span_debug(sp),
            Error::UnknownEnableExtension(sp, ext) =>
                "Unknown enable extension '"@ + ext@ + "' at "@ + span_debug(sp),
            Error::UnknownLanguageExtension(sp, ext) =>
                "Unknown language extension '"@ + ext@ + "' at "@ + span_debug(sp),
            Error::SizeAttributeTooLow(sp, size) =>
                "Size attribute too low at "@ + span_debug(sp) + ": "@ + dec(size as nat),
            Error::AlignAttributeTooLow(sp, align) =>
                "Align attribute too low at "@ + span_debug(sp) + ": "@ + alignment_debug(align),
            Error::InitializationTypeMismatch { name, expected, got } =>
                "Initialization type mismatch for '"@ + expected@ + "' at "@ + span_debug(name) + ": expected "@
                    + expected@ + ", got "@ + got@,
            Error::MissingAttribute(attr, sp) => "Missing attribute '"@ + attr@ + "' at "@ + span_debug(sp),
            Error::NotReference(what, sp) => "Not a reference to "@ + what@ + " at "@ + span_debug(sp),
            Error::InvalidAssignment { span, ty } =>
                "Invalid assignment at "@ + span_debug(span) + ": "@ + invalid_assignment_debug(ty),
            Error::UnexpectedComponents(sp) => "Unexpected components at "@ + span_debug(sp),
            Error::UnexpectedOperationInConstContext(sp) => "Unexpected operation in const context at "@ + span_debug(sp),
            Error::BadAccessor(sp) => "Bad accessor at "@ + span_debug(sp),
            Error::BadTexture(sp) => "Bad texture at "@ + span_debug(sp),
            Error::NotStorageTexture(sp) => "Not a storage texture at "@ + span_debug(sp),
            Error::BadIncrDecrReferenceType(sp) => "Bad increment/decrement reference type at "@ + span_debug(sp),
            Error::InvalidForInitializer(sp) => "Invalid for initializer at "@ + span_debug(sp),
            Error::InvalidBreakIf(sp) => "Invalid break if at "@ + span_debug(sp),
            Error::InvalidGatherComponent(sp) => "Invalid gather component at "@ + span_debug(sp),
            Error::InvalidIdentifierUnderscore(sp) => "Invalid identifier underscore at "@ + span_debug(sp),
            Error::ReservedIdentifierPrefix(sp) => "Reserved identifier prefix at "@ + span_debug(sp),
            Error::UnknownAddressSpace(sp) => "Unknown address space at "@ + span_debug(sp),
            Error::RepeatedAttribute(sp) => "Repeated attribute at "@ + span_debug(sp),
            Error::UnknownAttribute(sp) => "Unknown attribute at "@ + span_debug(sp),
            Error::UnknownBuiltin(sp) => "Unknown builtin at "@ + span_debug(sp),
            Error::UnknownAccess(sp) => "Unknown access at "@ + span_debug(sp),
            Error::UnknownScalarType(sp) => "Unknown scalar type at "@ + span_debug(sp),
            Error::UnknownType(sp) => "Unknown type at "@ + span_debug(sp),
            Error::UnknownStorageFormat(sp) => "Unknown storage format at "@ + span_debug(sp),
            Error::UnknownConservativeDepth(sp) => "Unknown conservative depth at "@ + span_debug(sp),
            Error::UnknownDiagnosticRuleName(sp) => "Unknown diagnostic rule name at "@ + span_debug(sp),
            Error::NonPowerOfTwoAlignAttribute(sp) => "Non-power-of-two align attribute at "@ + span_debug(sp),
            Error::InconsistentBinding(sp) => "Inconsistent binding at "@ + span_debug(sp),
            Error::TypeNotConstructible(sp) => "Type not constructible at "@ + span_debug(sp),
            Error::TypeNotInferable(sp) => "Type not inferable at "@ + span_debug(sp),
            Error::DeclMissingTypeAndInit(sp) => "Declaration missing type and initializer at "@ + span_debug(sp),
            Error::InvalidAddrOfOperand(sp) => "Invalid address-of operand at "@ + span_debug(sp),
            Error::InvalidAtomicPointer(sp) => "Invalid atomic pointer at "@ + span_debug(sp),
            Error::InvalidAtomicOperandType(sp) => "Invalid atomic operand type at "@ + span_debug(sp),
            Error::InvalidRayQueryPointer(sp) => "Invalid ray query pointer at "@ + span_debug(sp),
            Error::NotPointer(sp) => "Not a pointer at "@ + span_debug(sp),
            Error::ReservedKeyword(sp) => "Reserved keyword at "@ + span_debug(sp),
            _ => "Error: "@ + self.fallback_debug(),
        }
    }
}

/// Appends the `Debug` rendering of an error that displays by it.
#[verifier::rlimit(100)]
#[verifier::spinoff_prover]
fn push_fallback_debug<'a>(out: &mut String, error: &Error<'a>)
    requires
        error.displays_by_debug(),
    ensures
        final(out)@ == old(out)@ + error.fallback_debug(),
{
    let ghost start = out@;
    match error {
            Error::CalledEntryPoint(sp) => {
                out.append("CalledEntryPoint(");
                push_span_debug(out, *sp);
                out.append(")");
            },
            Error::FunctionReturnsVoid(sp) => {
                out.append("FunctionReturnsVoid(");
                push_span_debug(out, *sp);
                out.append(")");
            },
            Error::FunctionMustUseUnused(sp) => {
                out.append("FunctionMustUseUnused(");
                push_span_debug(out, *sp);
                out.append(")");
            },
            Error::InvalidWorkGroupUniformLoad(sp) => {
                out.append("InvalidWorkGroupUniformLoad(");
                push_span_debug(out, *sp);
                out.append(")");
            },
            Error::ExpectedConstExprConcreteIntegerScalar(sp) => {
                out.append("ExpectedConstExprConcreteIntegerScalar(");
                push_span_debug(out, *sp);
                out.append(")");
            },
            Error::ExpectedNonNegative(sp) => {
                out.append("ExpectedNonNegative(");
                push_span_debug(out, *sp);
                out.append(")");
            },
            Error::ExpectedPositiveArrayLength(sp) => {
                out.append("ExpectedPositiveArrayLength(");
                push_span_debug(out, *sp);
                out.append(")");
            },
            Error::MissingWorkgroupSize(sp) => {
                out.append("MissingWorkgroupSize(");
                push_span_debug(out, *sp);
                out.append(")");
            },
            Error::PipelineConstantIDValue(sp) => {
                out.append("PipelineConstantIDValue(");
                push_span_debug(out, *sp);
                out.append(")");
            },
            Error::NotBool(sp) => {
                out.append("NotBool(");
                push_span_debug(out, *sp);
                out.append(")");
            },
            Error::ConstAssertFailed(sp) => {
                out.append("ConstAssertFailed(");
                push_span_debug(out, *sp);
                out.append(")");
            },
            Error::Redefinition { previous, current } => {
                out.append("Redefinition { previous: ");
                push_span_debug(out, *previous);
                out.append(", current: ");
                push_span_debug(out, *current);
                out.append(" }");
            },
            Error::RecursiveDeclaration { ident, usage } => {
                out.append("RecursiveDeclaration { ident: ");
                push_span_debug(out, *ident);
                out.append(", usage: ");
                push_span_debug(out, *usage);
                out.append(" }");
            },
            Error::InvalidSwitchSelector { span } => {
                out.append("InvalidSwitchSelector { span: ");
                push_span_debug(out, *span);
                out.append(" }");
            },
            Error::InvalidSwitchCase { span } => {
                out.append("InvalidSwitchCase { span: ");
                push_span_debug(out, *span);
                out.append(" }");
            },
            Error::SwitchCaseTypeMismatch { span } => {
                out.append("SwitchCaseTypeMismatch { span: ");
                push_span_debug(out, *span);
                out.append(" }");
            },
            Error::DirectiveAfterFirstGlobalDecl { directive_span } => {
                out.append("DirectiveAfterFirstGlobalDecl { directive_span: ");
                push_span_debug(out, *directive_span);
                out.append(" }");
            },
            Error::DiagnosticInvalidSeverity { severity_control_name_span } => {
                out.append("DiagnosticInvalidSeverity { severity_control_name_span: ");
                push_span_debug(out, *severity_control_name_span);
                out.append(" }");
            },
        Error::CyclicDeclaration { ident, path } => {
            out.append("CyclicDeclaration { ident: ");
            push_span_debug(out, *ident);
            out.append(", path: ");
            push_span_pairs_debug(out, path);
            out.append(" }");
            proof {
                assert(out@ =~= start + error.fallback_debug());
            }
        },
        Error::WrongArgumentCount { span, expected, found } => {
            out.append("WrongArgumentCount { span: ");
            push_span_debug(out, *span);
            out.append(", expected: ");
            let r = range_debug_string(expected);
            out.append(r.as_str());
            out.append(", found: ");
            push_dec(out, *found as u64);
            out.append(" }");
            proof {
                assert(out@ =~= start + error.fallback_debug());
            }
        },
        Error::TooManyArguments { function, call_span, arg_span, max_arguments } => {
            out.append("TooManyArguments { function: ");
            push_str_debug(out, function.as_str());
            out.append(", call_span: ");
            push_span_debug(out, *call_span);
            out.append(", arg_span: ");
            push_span_debug(out, *arg_span);
            out.append(", max_arguments: ");
            push_dec(out, *max_arguments as u64);
            out.append(" }");
            proof {
                assert(out@ =~= start + error.fallback_debug());
            }
        },
        Error::WrongArgumentType { function, call_span, arg_span, arg_index, arg_ty, allowed } => {
            out.append("WrongArgumentType { function: ");
            push_str_debug(out, function.as_str());
            out.append(", call_span: ");
            push_span_debug(out, *call_span);
            out.append(", arg_span: ");
            push_span_debug(out, *arg_span);
            out.append(", arg_index: ");
            push_dec(out, *arg_index as u64);
            out.append(", arg_ty: ");
            push_str_debug(out, arg_ty.as_str());
            out.append(", allowed: ");
            push_strings_debug(out, allowed);
            out.append(" }");
            proof {
                assert(out@ =~= start + error.fallback_debug());
            }
        },
        Error::InconsistentArgumentType {
            function, call_span, arg_span, arg_index, arg_ty,
            inconsistent_span, inconsistent_index, inconsistent_ty, allowed,
        } => {
            out.append("InconsistentArgumentType { function: ");
            push_str_debug(out, function.as_str());
            out.append(", call_span: ");
            push_span_debug(out, *call_span);
            out.append(", arg_span: ");
            push_span_debug(out, *arg_span);
            out.append(", arg_index: ");
            push_dec(out, *arg_index as u64);
            out.append(", arg_ty: ");
            push_str_debug(out, arg_ty.as_str());
            out.append(", inconsistent_span: ");
            push_span_debug(out, *inconsistent_span);
            out.append(", inconsistent_index: ");
            push_dec(out, *inconsistent_index as u64);
            out.append(", inconsistent_ty: ");
            push_str_debug(out, inconsistent_ty.as_str());
            out.append(", allowed: ");
            push_strings_debug(out, allowed);
            out.append(" }");
            proof {
                assert(out@ =~= start + error.fallback_debug());
            }
        },
        Error::FunctionMustUseReturnsVoid(a, b) => {
            out.append("FunctionMustUseReturnsVoid(");
            push_span_debug(out, *a);
            out.append(", ");
            push_span_debug(out, *b);
            out.append(")");
            proof {
                assert(out@ =~= start + error.fallback_debug());
            }
        },
        Error::Internal(message) => {
            out.append("Internal(");
            push_str_debug(out, message);
            out.append(")");
            proof {
                assert(out@ =~= start + error.fallback_debug());
            }
        },
        Error::ConstantEvaluatorError(e, sp) => {
            out.append("ConstantEvaluatorError(");
            push_constant_evaluator_error_debug(out, e);
            out.append(", ");
            push_span_debug(out, *sp);
            out.append(")");
            proof {
                assert(out@ =~= start + error.fallback_debug());
            }
        },
        Error::AutoConversion(e) => {
            out.append("AutoConversion(");
            push_auto_conversion_debug(out, e);
            out.append(")");
            proof {
                assert(out@ =~= start + error.fallback_debug());
            }
        },
        Error::AutoConversionLeafScalar(e) => {
            out.append("AutoConversionLeafScalar(");
            push_auto_conversion_leaf_scalar_debug(out, e);
            out.append(")");
            proof {
                assert(out@ =~= start + error.fallback_debug());
            }
        },
        Error::ConcretizationFailed(e) => {
            out.append("ConcretizationFailed(");
            push_concretization_failed_debug(out, e);
            out.append(")");
            proof {
                assert(out@ =~= start + error.fallback_debug());
            }
        },
        Error::ExceededLimitForNestedBraces { span, limit } => {
            out.append("ExceededLimitForNestedBraces { span: ");
            push_span_debug(out, *span);
            out.append(", limit: ");
            push_dec(out, *limit as u64);
            out.append(" }");
            proof {
                assert(out@ =~= start + error.fallback_debug());
            }
        },
        Error::EnableExtensionNotYetImplemented { kind, span } => {
            out.append("EnableExtensionNotYetImplemented { kind: ");
            push_unimplemented_enable_debug(out, *kind);
            out.append(", span: ");
            push_span_debug(out, *span);
            out.append(" }");
            proof {
                assert(out@ =~= start + error.fallback_debug());
            }
        },
        Error::EnableExtensionNotEnabled { kind, span } => {
            out.append("EnableExtensionNotEnabled { kind: ");
            push_enable_extension_debug(out, *kind);
            out.append(", span: ");
            push_span_debug(out, *span);
            out.append(" }");
            proof {
                assert(out@ =~= start + error.fallback_debug());
            }
        },
        Error::LanguageExtensionNotYetImplemented { kind, span } => {
            out.append("LanguageExtensionNotYetImplemented { kind: ");
            push_unimplemented_language_debug(out, *kind);
            out.append(", span: ");
            push_span_debug(out, *span);
            out.append(" }");
            proof {
                assert(out@ =~= start + error.fallback_debug());
            }
        },
        Error::DiagnosticDuplicateTriggeringRule(e) => {
            out.append("DiagnosticDuplicateTriggeringRule(");
            push_conflicting_rule_debug(out, e);
            out.append(")");
            proof {
                assert(out@ =~= start + error.fallback_debug());
            }
        },
        Error::DiagnosticAttributeNotYetImplementedAtParseSite { site_name_plural, spans } => {
            out.append("DiagnosticAttributeNotYetImplementedAtParseSite { site_name_plural: ");
            push_str_debug(out, site_name_plural);
            out.append(", spans: ");
            push_spans_debug(out, spans);
            out.append(" }");
            proof {
                assert(out@ =~= start + error.fallback_debug());
            }
        },
        Error::DiagnosticAttributeNotSupported { on_what, spans } => {
            out.append("DiagnosticAttributeNotSupported { on_what: ");
            push_position_debug(out, *on_what);
            out.append(", spans: ");
            push_spans_debug(out, spans);
            out.append(" }");
            proof {
                assert(out@ =~= start + error.fallback_debug());
            }
        },
        Error::SelectUnexpectedArgumentType { arg_span, arg_type } => {
            out.append("SelectUnexpectedArgumentType { arg_span: ");
            push_span_debug(out, *arg_span);
            out.append(", arg_type: ");
            push_str_debug(out, arg_type.as_str());
            out.append(" }");
            proof {
                assert(out@ =~= start + error.fallback_debug());
            }
        },
        Error::SelectRejectAndAcceptHaveNoCommonType { reject_span, reject_type, accept_span, accept_type } => {
            out.append("SelectRejectAndAcceptHaveNoCommonType { reject_span: ");
            push_span_debug(out, *reject_span);
            out.append(", reject_type: ");
            push_str_debug(out, reject_type.as_str());
            out.append(", accept_span: ");
            push_span_debug(out, *accept_span);
            out.append(", accept_type: ");
            push_str_debug(out, accept_type.as_str());
            out.append(" }");
            proof {
                assert(out@ =~= start + error.fallback_debug());
            }
        },
        _ => {},
    }
}

impl<'a> Error<'a> {
    /// The one-line description of the error (its `Display` text).
    #[verifier::rlimit(50)]
    pub fn to_string(&self) -> (r: String)
        ensures
            r@ == self.display(),
    {
        match self {
            Error::Unexpected(sp, expected) => {
                let mut s = lit("Unexpected token at ");
                push_span_debug(&mut s, *sp);
                s.append(", expected ");
                push_expected_debug(&mut s, *expected);
                s
            },
            Error::BadNumber(sp, err) => {
                let mut s = lit("Bad number at ");
                push_span_debug(&mut s, *sp);
                s.append(": ");
                let d = number_error_debug_string(*err);
                s.append(d.as_str());
                s
            },
            Error::BadMatrixScalarKind(sp, scalar) => {
                let mut s = lit("Bad matrix scalar kind at ");
                push_span_debug(&mut s, *sp);
                s.append(": ");
                let d = scalar.debug_string();
                s.append(d.as_str());
                s
            },
            Error::BadTypeCast { span, from_type, to_type } => {
                let mut s = lit("Bad type cast at ");
                push_span_debug(&mut s, *span);
                s.append(": ");
                s.append(from_type.as_str());
                s.append(" to ");
                s.append(to_type.as_str());
                s
            },
            Error::BadTextureSampleType { span, scalar } => {
                let mut s = lit("Bad texture sample type at ");
                push_span_debug(&mut s, *span);
                s.append(": ");
                let d = scalar.debug_string();
                s.append(d.as_str());
                s
            },
            Error::InvalidResolve(err) => {
                let mut s = lit("Invalid resolve: ");
                push_resolve_error_debug(&mut s, err);
                s
            },
            Error::InvalidConstructorComponentType(sp, idx) => {
                let mut s = lit("Invalid constructor component type at ");
                push_span_debug(&mut s, *sp);
                s.append(", index ");
                push_dec_signed(&mut s, *idx as i64);
                s
            },
            Error::UnknownIdent(sp, ident) => {
                let mut s = lit("Unknown identifier '");
                s.append(ident);
                s.append("' at ");
                push_span_debug(&mut s, *sp);
                s
            },
            Error::UnknownEnableExtension(sp, ext) => {
                let mut s = lit("Unknown enable extension '");
                s.append(ext);
                s.append("' at ");
                push_span_debug(&mut s, *sp);
                s
            },
            Error::UnknownLanguageExtension(sp, ext) => {
                let mut s = lit("Unknown language extension '");
                s.append(ext);
                s.append("' at ");
                push_span_debug(&mut s, *sp);
                s
            },
            Error::SizeAttributeTooLow(sp, size) => {
                let mut s = lit("Size attribute too low at ");
                push_span_debug(&mut s, *sp);
                s.append(": ");
                push_dec(&mut s, *size as u64);
                s
            },
            Error::AlignAttributeTooLow(sp, align) => {
                let mut s = lit("Align attribute too low at ");
                push_span_debug(&mut s, *sp);
                s.append(": ");
                push_alignment_debug(&mut s, *align);
                s
            },
            Error::InitializationTypeMismatch { name, expected, got } => {
                let mut s = lit("Initialization type mismatch for '");
                s.append(expected.as_str());
                s.append("' at ");
                push_span_debug(&mut s, *name);
                s.append(": expected ");
                s.append(expected.as_str());
                s.append(", got ");
                s.append(got.as_str());
                s
            },
            Error::MissingAttribute(attr, sp) => {
                let mut s = lit("Missing attribute '");
                s.append(attr);
                s.append("' at ");
                push_span_debug(&mut s, *sp);
                s
            },
            Error::NotReference(what, sp) => {
                let mut s = lit("Not a reference to ");
                s.append(what);
                s.append(" at ");
                push_span_debug(&mut s, *sp);
                s
            },
            Error::InvalidAssignment { span, ty } => {
                let mut s = lit("Invalid assignment at ");
                push_span_debug(&mut s, *span);
                s.append(": ");
                push_invalid_assignment_debug(&mut s, *ty);
                s
            },
            Error::UnexpectedComponents(sp) => {
                let mut s = lit("Unexpected components at ");
                push_span_debug(&mut s, *sp);
                s
            },
            Error::UnexpectedOperationInConstContext(sp) => {
                let mut s = lit("Unexpected operation in const context at ");
                push_span_debug(&mut s, *sp);
                s
            },
            Error::BadAccessor(sp) => {
                let mut s = lit("Bad accessor at ");
                push_span_debug(&mut s, *sp);
                s
            },
            Error::BadTexture(sp) => {
                let mut s = lit("Bad texture at ");
                push_span_debug(&mut s, *sp);
                s
            },
            Error::NotStorageTexture(sp) => {
                let mut s = lit("Not a storage texture at ");
                push_span_debug(&mut s, *sp);
                s
            },
            Error::BadIncrDecrReferenceType(sp) => {
                let mut s = lit("Bad increment/decrement reference type at ");
                push_span_debug(&mut s, *sp);
                s
            },
            Error::InvalidForInitializer(sp) => {
                let mut s = lit("Invalid for initializer at ");
                push_span_debug(&mut s, *sp);
                s
            },
            Error::InvalidBreakIf(sp) => {
                let mut s = lit("Invalid break if at ");
                push_span_debug(&mut s, *sp);
                s
            },
            Error::InvalidGatherComponent(sp) => {
                let mut s = lit("Invalid gather component at ");
                push_span_debug(&mut s, *sp);
                s
            },
            Error::InvalidIdentifierUnderscore(sp) => {
                let mut s = lit("Invalid identifier underscore at ");
                push_span_debug(&mut s, *sp);
                s
            },
            Error::ReservedIdentifierPrefix(sp) => {
                let mut s = lit("Reserved identifier prefix at ");
                push_span_debug(&mut s, *sp);
                s
            },
            Error::UnknownAddressSpace(sp) => {
                let mut s = lit("Unknown address space at ");
                push_span_debug(&mut s, *sp);
                s
            },
            Error::RepeatedAttribute(sp) => {
                let mut s = lit("Repeated attribute at ");
                push_span_debug(&mut s, *sp);
                s
            },
            Error::UnknownAttribute(sp) => {
                let mut s = lit("Unknown attribute at ");
                push_span_debug(&mut s, *sp);
                s
            },
            Error::UnknownBuiltin(sp) => {
                let mut s = lit("Unknown builtin at ");
                push_span_debug(&mut s, *sp);
                s
            },
            Error::UnknownAccess(sp) => {
                let mut s = lit("Unknown access at ");
                push_span_debug(&mut s, *sp);
                s
            },
            Error::UnknownScalarType(sp) => {
                let mut s = lit("Unknown scalar type at ");
                push_span_debug(&mut s, *sp);
                s
            },
            Error::UnknownType(sp) => {
                let mut s = lit("Unknown type at ");
                push_span_debug(&mut s, *sp);
                s
            },
            Error::UnknownStorageFormat(sp) => {
                let mut s = lit("Unknown storage format at ");
                push_span_debug(&mut s, *sp);
                s
            },
            Error::UnknownConservativeDepth(sp) => {
                let mut s = lit("Unknown conservative depth at ");
                push_span_debug(&mut s, *sp);
                s
            },
            Error::UnknownDiagnosticRuleName(sp) => {
                let mut s = lit("Unknown diagnostic rule name at ");
                push_span_debug(&mut s, *sp);
                s
            },
            Error::NonPowerOfTwoAlignAttribute(sp) => {
                let mut s = lit("Non-power-of-two align attribute at ");
                push_span_debug(&mut s, *sp);
                s
            },
            Error::InconsistentBinding(sp) => {
                let mut s = lit("Inconsistent binding at ");
                push_span_debug(&mut s, *sp);
                s
            },
            Error::TypeNotConstructible(sp) => {
                let mut s = lit("Type not constructible at ");
                push_span_debug(&mut s, *sp);
                s
            },
            Error::TypeNotInferable(sp) => {
                let mut s = lit("Type not inferable at ");
                push_span_debug(&mut s, *sp);
                s
            },
            Error::DeclMissingTypeAndInit(sp) => {
                let mut s = lit("Declaration missing type and initializer at ");
                push_span_debug(&mut s, *sp);
                s
            },
            Error::InvalidAddrOfOperand(sp) => {
                let mut s = lit("Invalid address-of operand at ");
                push_span_debug(&mut s, *sp);
                s
            },
            Error::InvalidAtomicPointer(sp) => {
                let mut s = lit("Invalid atomic pointer at ");
                push_span_debug(&mut s, *sp);
                s
            },
            Error::InvalidAtomicOperandType(sp) => {
                let mut s = lit("Invalid atomic operand type at ");
                push_span_debug(&mut s, *sp);
                s
            },
            Error::InvalidRayQueryPointer(sp) => {
                let mut s = lit("Invalid ray query pointer at ");
                push_span_debug(&mut s, *sp);
                s
            },
            Error::NotPointer(sp) => {
                let mut s = lit("Not a pointer at ");
                push_span_debug(&mut s, *sp);
                s
            },
            Error::ReservedKeyword(sp) => {
                let mut s = lit("Reserved keyword at ");
                push_span_debug(&mut s, *sp);
                s
            },
            _ => {
                let mut s = lit("Error: ");
                push_fallback_debug(&mut s, self);
                s
            },
        }
    }
}

} // verus!
