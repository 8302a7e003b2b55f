use naga_wgsl::error::Error;
use naga_wgsl::span::Span;
use naga_wgsl::types::{
    Alignment, AutoConversionError, AutoConversionLeafScalarError, ConcretizationFailedError,
    ConflictingDiagnosticRuleError, ConstantEvaluatorError, DiagnosticAttributeNotSupportedPosition,
    EnableExtension, ExpectedToken, ImplementedEnableExtension, InvalidAssignmentType, Number,
    NumberError, ResolveError, Scalar, ScalarKind, Token, UnimplementedEnableExtension,
    UnimplementedLanguageExtension,
};

fn sp(start: u32, end: u32) -> Span {
    Span::new(start, end)
}

#[test]
fn display_unknown_ident() {
    let e = Error::UnknownIdent(sp(1, 4), "foo");
    assert_eq!(e.to_string(), "Unknown identifier 'foo' at Span { start: 1, end: 4 }");
}

#[test]
fn display_simple_variants() {
    assert_eq!(Error::BadTexture(sp(2, 3)).to_string(), "Bad texture at Span { start: 2, end: 3 }");
    assert_eq!(Error::NotPointer(sp(0, 0)).to_string(), "Not a pointer at Span { start: 0, end: 0 }");
    assert_eq!(
        Error::SizeAttributeTooLow(sp(5, 9), 16).to_string(),
        "Size attribute too low at Span { start: 5, end: 9 }: 16"
    );
    assert_eq!(
        Error::InvalidConstructorComponentType(sp(1, 2), -3).to_string(),
        "Invalid constructor component type at Span { start: 1, end: 2 }, index -3"
    );
    assert_eq!(
        Error::NotReference("the left-hand side", sp(1, 2)).to_string(),
        "Not a reference to the left-hand side at Span { start: 1, end: 2 }"
    );
}

#[test]
fn display_initialization_type_mismatch_names_expected_type() {
    let e = Error::InitializationTypeMismatch { name: sp(4, 5), expected: "u32".to_string(), got: "f32".to_string() };
    assert_eq!(
        e.to_string(),
        "Initialization type mismatch for 'u32' at Span { start: 4, end: 5 }: expected u32, got f32"
    );
}

#[test]
fn display_matches_debug_of_parts() {
    let span = sp(3, 8);
    let tokens = vec![
        ExpectedToken::Token(Token::Separator(';')),
        ExpectedToken::Token(Token::Paren('\'')),
        ExpectedToken::Token(Token::Word("fn\n")),
        ExpectedToken::Token(Token::Number(Ok(Number::AbstractInt(-12)))),
        ExpectedToken::Token(Token::Number(Ok(Number::U64(u64::MAX)))),
        ExpectedToken::Token(Token::Number(Err(NumberError::Invalid))),
        ExpectedToken::Token(Token::Unknown('\u{7}')),
        ExpectedToken::Token(Token::ModuleDocComment("doc \"x\"")),
        ExpectedToken::Token(Token::Arrow),
        ExpectedToken::GlobalItem,
        ExpectedToken::DiagnosticAttribute,
    ];
    for expected in tokens {
        let e = Error::Unexpected(span, expected);
        assert_eq!(e.to_string(), format!("Unexpected token at {:?}, expected {:?}", span, expected));
    }
    let scalar = Scalar { kind: ScalarKind::AbstractFloat, width: 8 };
    assert_eq!(
        Error::BadTextureSampleType { span, scalar }.to_string(),
        format!("Bad texture sample type at {:?}: {:?}", span, scalar)
    );
    assert_eq!(
        Error::BadNumber(span, NumberError::NotRepresentable).to_string(),
        format!("Bad number at {:?}: {:?}", span, NumberError::NotRepresentable)
    );
    let err = ResolveError { message: "no type".to_string(), debug: "TypeNotFound(\"x\")".to_string() };
    assert_eq!(Error::InvalidResolve(err).to_string(), "Invalid resolve: TypeNotFound(\"x\")");
    assert_eq!(
        Error::AlignAttributeTooLow(span, Alignment(8)).to_string(),
        format!("Align attribute too low at {:?}: {:?}", span, Alignment(8))
    );
    let ty = InvalidAssignmentType::ImmutableBinding(sp(1, 2));
    assert_eq!(
        Error::InvalidAssignment { span, ty }.to_string(),
        format!("Invalid assignment at {:?}: {:?}", span, ty)
    );
}

#[test]
fn display_falls_back_to_debug() {
    let errors: Vec<Error<'static>> = vec![
        Error::Redefinition { previous: sp(1, 2), current: sp(3, 4) },
        Error::RecursiveDeclaration { ident: sp(1, 2), usage: sp(3, 4) },
        Error::CyclicDeclaration { ident: sp(1, 2), path: vec![(sp(1, 2), sp(5, 6)), (sp(7, 8), sp(9, 10))] },
        Error::CyclicDeclaration { ident: sp(1, 2), path: vec![] },
        Error::InvalidSwitchSelector { span: sp(1, 2) },
        Error::InvalidSwitchCase { span: sp(1, 2) },
        Error::SwitchCaseTypeMismatch { span: sp(1, 2) },
        Error::CalledEntryPoint(sp(1, 2)),
        Error::WrongArgumentCount { span: sp(1, 2), expected: 0..4, found: 7 },
        Error::TooManyArguments { function: "f\"g".to_string(), call_span: sp(1, 2), arg_span: sp(3, 4), max_arguments: 2 },
        Error::WrongArgumentType {
            function: "max".to_string(),
            call_span: sp(1, 2),
            arg_span: sp(3, 4),
            arg_index: 0,
            arg_ty: "bool".to_string(),
            allowed: vec!["i32".to_string(), "u\tx".to_string()],
        },
        Error::InconsistentArgumentType {
            function: "min".to_string(),
            call_span: sp(1, 2),
            arg_span: sp(3, 4),
            arg_index: 1,
            arg_ty: "f32".to_string(),
            inconsistent_span: sp(5, 6),
            inconsistent_index: 0,
            inconsistent_ty: "i32".to_string(),
            allowed: vec![],
        },
        Error::FunctionReturnsVoid(sp(1, 2)),
        Error::FunctionMustUseUnused(sp(1, 2)),
        Error::FunctionMustUseReturnsVoid(sp(1, 2), sp(3, 4)),
        Error::InvalidWorkGroupUniformLoad(sp(1, 2)),
        Error::Internal("oops \\ here"),
        Error::ExpectedConstExprConcreteIntegerScalar(sp(1, 2)),
        Error::ExpectedNonNegative(sp(1, 2)),
        Error::ExpectedPositiveArrayLength(sp(1, 2)),
        Error::MissingWorkgroupSize(sp(1, 2)),
        Error::AutoConversion(Box::new(AutoConversionError {
            dest_span: sp(1, 2),
            dest_type: "u32".to_string(),
            source_span: sp(3, 4),
            source_type: "f32".to_string(),
        })),
        Error::AutoConversionLeafScalar(Box::new(AutoConversionLeafScalarError {
            dest_span: sp(1, 2),
            dest_scalar: "u32".to_string(),
            source_span: sp(3, 4),
            source_type: "vec2<f32>".to_string(),
        })),
        Error::ExceededLimitForNestedBraces { span: sp(1, 2), limit: 127 },
        Error::PipelineConstantIDValue(sp(1, 2)),
        Error::NotBool(sp(1, 2)),
        Error::ConstAssertFailed(sp(1, 2)),
        Error::DirectiveAfterFirstGlobalDecl { directive_span: sp(1, 2) },
        Error::DiagnosticInvalidSeverity { severity_control_name_span: sp(1, 2) },
        Error::DiagnosticDuplicateTriggeringRule(ConflictingDiagnosticRuleError { triggering_rule_spans: [sp(1, 2), sp(3, 4)] }),
        Error::DiagnosticAttributeNotYetImplementedAtParseSite { site_name_plural: "structs", spans: vec![sp(1, 2)] },
        Error::DiagnosticAttributeNotSupported {
            on_what: DiagnosticAttributeNotSupportedPosition::SemicolonInModulePosition,
            spans: vec![sp(1, 2), sp(3, 4)],
        },
        Error::DiagnosticAttributeNotSupported {
            on_what: DiagnosticAttributeNotSupportedPosition::Other { display_plural: "consts" },
            spans: vec![],
        },
        Error::SelectUnexpectedArgumentType { arg_span: sp(1, 2), arg_type: "bool".to_string() },
        Error::SelectRejectAndAcceptHaveNoCommonType {
            reject_span: sp(1, 2),
            reject_type: "i32".to_string(),
            accept_span: sp(3, 4),
            accept_type: "f32".to_string(),
        },
    ];
    for e in &errors {
        assert_eq!(e.to_string(), format!("Error: {:?}", e));
    }
}

#[test]
fn display_scalar_names_for_diagnostics() {
    let name = |kind, width| Scalar { kind, width }.to_wgsl_for_diagnostics();
    assert_eq!(name(ScalarKind::Float, 4), "f32");
    assert_eq!(name(ScalarKind::Float, 2), "f16");
    assert_eq!(name(ScalarKind::Uint, 8), "u64");
    assert_eq!(name(ScalarKind::Bool, 1), "bool");
    assert_eq!(name(ScalarKind::AbstractInt, 8), "{AbstractInt}");
    assert_eq!(name(ScalarKind::AbstractFloat, 8), "{AbstractFloat}");
    assert_eq!(name(ScalarKind::Uint, 1), "{non-wgsl scalar Scalar { kind: Uint, width: 1 }}");
    let s = Scalar { kind: ScalarKind::Bool, width: 4 };
    assert_eq!(s.debug_string(), format!("{:?}", s));
}

#[test]
fn display_number_error_messages() {
    assert_eq!(NumberError::Invalid.message(), "invalid numeric literal format");
    assert_eq!(NumberError::NotRepresentable.message(), "numeric literal not representable by target type");
}

#[test]
fn display_falls_back_to_the_debug_text_carried_by_outside_values() {
    let cases: Vec<(Error<'static>, &str)> = vec![
        (
            Error::ConstantEvaluatorError(
                Box::new(ConstantEvaluatorError { message: "overflow".to_string(), debug: "Overflow(\"+\")".to_string() }),
                sp(1, 2),
            ),
            "Error: ConstantEvaluatorError(Overflow(\"+\"), Span { start: 1, end: 2 })",
        ),
        (
            Error::ConcretizationFailed(Box::new(ConcretizationFailedError {
                expr_span: sp(1, 2),
                expr_type: "{AbstractInt}".to_string(),
                scalar: "i32".to_string(),
                inner: ConstantEvaluatorError { message: "too big".to_string(), debug: "AutomaticConversionLossy".to_string() },
            })),
            "Error: ConcretizationFailed(ConcretizationFailedError { expr_span: Span { start: 1, end: 2 }, \
             expr_type: \"{AbstractInt}\", scalar: \"i32\", inner: AutomaticConversionLossy })",
        ),
        (
            Error::EnableExtensionNotYetImplemented {
                kind: UnimplementedEnableExtension { name: "Subgroups", ident: "subgroups", tracking_issue_num: 5555 },
                span: sp(1, 2),
            },
            "Error: EnableExtensionNotYetImplemented { kind: Subgroups, span: Span { start: 1, end: 2 } }",
        ),
        (
            Error::EnableExtensionNotEnabled {
                kind: EnableExtension::Implemented(ImplementedEnableExtension { name: "F16", ident: "f16" }),
                span: sp(1, 2),
            },
            "Error: EnableExtensionNotEnabled { kind: Implemented(F16), span: Span { start: 1, end: 2 } }",
        ),
        (
            Error::EnableExtensionNotEnabled {
                kind: EnableExtension::Unimplemented(UnimplementedEnableExtension { name: "X", ident: "x", tracking_issue_num: 1 }),
                span: sp(1, 2),
            },
            "Error: EnableExtensionNotEnabled { kind: Unimplemented(X), span: Span { start: 1, end: 2 } }",
        ),
        (
            Error::LanguageExtensionNotYetImplemented {
                kind: UnimplementedLanguageExtension { name: "PointerCompositeAccess", ident: "pointer_composite_access", tracking_issue_num: 42 },
                span: sp(1, 2),
            },
            "Error: LanguageExtensionNotYetImplemented { kind: PointerCompositeAccess, span: Span { start: 1, end: 2 } }",
        ),
    ];
    for (e, expected) in &cases {
        assert_eq!(e.to_string(), *expected);
    }
}
