//! `Debug` renderings of the values that error messages print with `{:?}`:
//! the text that `#[derive(Debug)]` produces for each type, written out.

use vstd::prelude::*;
use vstd::string::*;
use crate::error::strings_view;
use crate::span::Span;
use crate::text::{dec, dec_int, str_debug_text, char_debug_text, lit, push_dec, push_dec_signed, str_debug, char_debug};
use crate::types::{
    Alignment, AutoConversionError, AutoConversionLeafScalarError, ConcretizationFailedError,
    ConflictingDiagnosticRuleError, ConstantEvaluatorError, DiagnosticAttributeNotSupportedPosition,
    EnableExtension, ExpectedToken, InvalidAssignmentType, Number,
    NumberError, ResolveError, Token, UnimplementedEnableExtension, UnimplementedLanguageExtension,
};

verus! {

/// Appends the `Debug` rendering of a string.
pub fn push_str_debug(out: &mut String, s: &str)
    ensures
        final(out)@ == old(out)@ + str_debug_text(s@),
{
    let d = str_debug(s);
    out.append(d.as_str());
}

/// Appends the `Debug` rendering of a character.
pub fn push_char_debug(out: &mut String, c: char)
    ensures
        final(out)@ == old(out)@ + char_debug_text(c),
{
    let d = char_debug(c);
    out.append(d.as_str());
}

/// Items separated by `", "`.
pub open spec fn joined(items: Seq<Seq<char>>) -> Seq<char>
    decreases items.len(),
{
    if items.len() == 0 {
        Seq::empty()
    } else if items.len() == 1 {
        items[0]
    } else {
        joined(items.drop_last()) + ", "@ + items.last()
    }
}

/// `Debug` rendering of a list whose items render as `items`: `[a, b]`.
pub open spec fn list_debug(items: Seq<Seq<char>>) -> Seq<char> {
    "["@ + joined(items) + "]"@
}

/// Appends the `Debug` rendering of a list whose items render as `items`.
pub fn push_list_debug(out: &mut String, items: &Vec<String>)
    ensures
        final(out)@ == old(out)@ + list_debug(strings_view(items@)),
{
    let ghost start = old(out)@;
    let ghost all = strings_view(items@);
    out.append("[");
    let mut i: usize = 0;
    while i < items.len()
        invariant
            i <= items@.len(),
            all == strings_view(items@),
            out@ == start + "["@ + joined(all.subrange(0, i as int)),
        decreases items@.len() - i,
    {
        let ghost before = out@;
        if i > 0 {
            out.append(", ");
        }
        out.append(items[i].as_str());
        proof {
            let prev = all.subrange(0, i as int);
            let next = all.subrange(0, i + 1);
            assert(next.drop_last() =~= prev);
            assert(next.last() == items@[i as int]@);
            if i == 0 {
                assert(joined(next) == items@[0]@);
                assert(joined(prev) =~= Seq::<char>::empty());
                assert(out@ =~= start + "["@ + joined(next));
            } else {
                assert(out@ =~= start + "["@ + joined(next));
            }
        }
        i = i + 1;
    }
    proof {
        assert(all.subrange(0, i as int) =~= all);
    }
    out.append("]");
}

/// `Debug` rendering of a span.
pub open spec fn span_debug(s: Span) -> Seq<char> {
    "Span { start: "@ + dec(s.start as nat) + ", end: "@ + dec(s.end as nat) + " }"@
}

/// Appends the `Debug` rendering of a span.
pub fn push_span_debug(out: &mut String, s: Span)
    ensures
        final(out)@ == old(out)@ + span_debug(s),
{
    let ghost start = out@;
    out.append("Span { start: ");
    push_dec(out, s.start as u64);
    out.append(", end: ");
    push_dec(out, s.end as u64);
    out.append(" }");
    proof {
        assert(out@ =~= start + span_debug(s));
    }
}

/// The `Debug` rendering of a span.
pub fn span_debug_string(s: Span) -> (r: String)
    ensures
        r@ == span_debug(s),
{
    let mut r = String::new();
    push_span_debug(&mut r, s);
    proof {
        assert(r@ =~= span_debug(s));
    }
    r
}

/// `Debug` rendering of a list of spans.
pub open spec fn spans_debug(spans: Seq<Span>) -> Seq<char> {
    list_debug(spans.map_values(|s: Span| span_debug(s)))
}

/// Appends the `Debug` rendering of a list of spans.
pub fn push_spans_debug(out: &mut String, spans: &Vec<Span>)
    ensures
        final(out)@ == old(out)@ + spans_debug(spans@),
{
    let mut items: Vec<String> = Vec::new();
    let mut i: usize = 0;
    while i < spans.len()
        invariant
            i <= spans@.len(),
            strings_view(items@) =~= spans@.subrange(0, i as int).map_values(|s: Span| span_debug(s)),
        decreases spans@.len() - i,
    {
        let ghost before = items@;
        items.push(span_debug_string(spans[i]));
        proof {
            let f = |s: Span| span_debug(s);
            assert(spans@.subrange(0, i + 1) =~= spans@.subrange(0, i as int).push(spans@[i as int]));
            assert(strings_view(items@) =~= strings_view(before).push(span_debug(spans@[i as int])));
            assert(spans@.subrange(0, i + 1).map_values(f) =~= spans@.subrange(0, i as int).map_values(f).push(f(spans@[i as int])));
        }
        i = i + 1;
    }
    proof {
        assert(spans@.subrange(0, i as int) =~= spans@);
    }
    push_list_debug(out, &items);
}

/// `Debug` rendering of a list of span pairs: `[(a, b), (c, d)]`.
pub open spec fn span_pairs_debug(pairs: Seq<(Span, Span)>) -> Seq<char> {
    list_debug(pairs.map_values(|p: (Span, Span)| "("@ + span_debug(p.0) + ", "@ + span_debug(p.1) + ")"@))
}

/// Appends the `Debug` rendering of a list of span pairs.
pub fn push_span_pairs_debug(out: &mut String, pairs: &Vec<(Span, Span)>)
    ensures
        final(out)@ == old(out)@ + span_pairs_debug(pairs@),
{
    let mut items: Vec<String> = Vec::new();
    let mut i: usize = 0;
    while i < pairs.len()
        invariant
            i <= pairs@.len(),
            strings_view(items@) =~= pairs@.subrange(0, i as int).map_values(
                |p: (Span, Span)| "("@ + span_debug(p.0) + ", "@ + span_debug(p.1) + ")"@),
        decreases pairs@.len() - i,
    {
        let (a, b) = pairs[i];
        let mut item = lit("(");
        push_span_debug(&mut item, a);
        item.append(", ");
        push_span_debug(&mut item, b);
        item.append(")");
        let ghost before = items@;
        let ghost item_view = item@;
        items.push(item);
        proof {
            let f = |p: (Span, Span)| "("@ + span_debug(p.0) + ", "@ + span_debug(p.1) + ")"@;
            assert(item_view == f(pairs@[i as int]));
            assert(pairs@.subrange(0, i + 1) =~= pairs@.subrange(0, i as int).push(pairs@[i as int]));
            assert(strings_view(items@) =~= strings_view(before).push(item_view));
            assert(pairs@.subrange(0, i + 1).map_values(f) =~= pairs@.subrange(0, i as int).map_values(f).push(f(pairs@[i as int])));
        }
        i = i + 1;
    }
    proof {
        assert(pairs@.subrange(0, i as int) =~= pairs@);
    }
    push_list_debug(out, &items);
}

/// `Debug` rendering of a list of strings.
pub open spec fn strings_debug(strings: Seq<Seq<char>>) -> Seq<char> {
    list_debug(strings.map_values(|s: Seq<char>| str_debug_text(s)))
}

/// Appends the `Debug` rendering of a list of strings.
pub fn push_strings_debug(out: &mut String, strings: &Vec<String>)
    ensures
        final(out)@ == old(out)@ + strings_debug(strings_view(strings@)),
{
    let mut items: Vec<String> = Vec::new();
    let mut i: usize = 0;
    while i < strings.len()
        invariant
            i <= strings@.len(),
            strings_view(items@) =~= strings_view(strings@.subrange(0, i as int)).map_values(
                |s: Seq<char>| str_debug_text(s)),
        decreases strings@.len() - i,
    {
        let ghost before = items@;
        items.push(str_debug(strings[i].as_str()));
        proof {
            let f = |s: Seq<char>| str_debug_text(s);
            assert(strings@.subrange(0, i + 1) =~= strings@.subrange(0, i as int).push(strings@[i as int]));
            assert(strings_view(strings@.subrange(0, i + 1)) =~= strings_view(strings@.subrange(0, i as int)).push(strings@[i as int]@));
            assert(strings_view(items@) =~= strings_view(before).push(str_debug_text(strings@[i as int]@)));
            assert(strings_view(strings@.subrange(0, i + 1)).map_values(f) =~= strings_view(strings@.subrange(0, i as int)).map_values(f).push(f(strings@[i as int]@)));
        }
        i = i + 1;
    }
    proof {
        assert(strings@.subrange(0, i as int) =~= strings@);
    }
    push_list_debug(out, &items);
}

/// `Debug` rendering of a numeric-literal error.
pub open spec fn number_error_debug(e: NumberError) -> Seq<char> {
    match e {
        NumberError::Invalid => "Invalid"@,
        NumberError::NotRepresentable => "NotRepresentable"@,
    }
}

fn push_number_error_debug(out: &mut String, e: NumberError)
    ensures
        final(out)@ == old(out)@ + number_error_debug(e),
{
    match e {
        NumberError::Invalid => out.append("Invalid"),
        NumberError::NotRepresentable => out.append("NotRepresentable"),
    }
}

/// `Debug` rendering of a numeric-literal error.
pub fn number_error_debug_string(e: NumberError) -> (r: String)
    ensures
        r@ == number_error_debug(e),
{
    match e {
        NumberError::Invalid => lit("Invalid"),
        NumberError::NotRepresentable => lit("NotRepresentable"),
    }
}

/// `Debug` rendering of an integer literal value.
pub open spec fn number_debug(n: Number) -> Seq<char> {
    match n {
        Number::AbstractInt(v) => "AbstractInt("@ + dec_int(v as int) + ")"@,
        Number::I32(v) => "I32("@ + dec_int(v as int) + ")"@,
        Number::U32(v) => "U32("@ + dec(v as nat) + ")"@,
        Number::I64(v) => "I64("@ + dec_int(v as int) + ")"@,
        Number::U64(v) => "U64("@ + dec(v as nat) + ")"@,
    }
}

fn push_number_debug(out: &mut String, n: Number)
    ensures
        final(out)@ == old(out)@ + number_debug(n),
{
    let ghost start = out@;
    match n {
        Number::AbstractInt(v) => {
            out.append("AbstractInt(");
            push_dec_signed(out, v);
        },
        Number::I32(v) => {
            out.append("I32(");
            push_dec_signed(out, v as i64);
        },
        Number::U32(v) => {
            out.append("U32(");
            push_dec(out, v as u64);
        },
        Number::I64(v) => {
            out.append("I64(");
            push_dec_signed(out, v);
        },
        Number::U64(v) => {
            out.append("U64(");
            push_dec(out, v);
        },
    }
    out.append(")");
    proof {
        assert(out@ =~= start + number_debug(n));
    }
}

/// `Debug` rendering of a character-carrying token variant: `Name('c')`.
pub open spec fn char_variant_debug(name: Seq<char>, c: char) -> Seq<char> {
    name + "("@ + char_debug_text(c) + ")"@
}

/// `Debug` rendering of a text-carrying token variant: `Name("text")`.
pub open spec fn str_variant_debug(name: Seq<char>, s: Seq<char>) -> Seq<char> {
    name + "("@ + str_debug_text(s) + ")"@
}

/// `Debug` rendering of a token.
pub open spec fn token_debug<'a>(t: Token<'a>) -> Seq<char> {
    match t {
        Token::Separator(c) => char_variant_debug("Separator"@, c),
        Token::Paren(c) => char_variant_debug("Paren"@, c),
        Token::Attribute => "Attribute"@,
        Token::Number(r) => "Number("@ + match r {
            Ok(n) => "Ok("@ + number_debug(n) + ")"@,
            Err(e) => "Err("@ + number_error_debug(e) + ")"@,
        } + ")"@,
        Token::Word(s) => str_variant_debug("Word"@, s@),
        Token::Operation(c) => char_variant_debug("Operation"@, c),
        Token::LogicalOperation(c) => char_variant_debug("LogicalOperation"@, c),
        Token::ShiftOperation(c) => char_variant_debug("ShiftOperation"@, c),
        Token::AssignmentOperation(c) => char_variant_debug("AssignmentOperation"@, c),
        Token::IncrementOperation => "IncrementOperation"@,
        Token::DecrementOperation => "DecrementOperation"@,
        Token::Arrow => "Arrow"@,
        Token::Unknown(c) => char_variant_debug("Unknown"@, c),
        Token::Trivia => "Trivia"@,
        Token::DocComment(s) => str_variant_debug("DocComment"@, s@),
        Token::ModuleDocComment(s) => str_variant_debug("ModuleDocComment"@, s@),
        Token::End => "End"@,
    }
}

fn push_char_variant_debug(out: &mut String, name: &str, c: char)
    ensures
        final(out)@ == old(out)@ + char_variant_debug(name@, c),
{
    let ghost start = out@;
    out.append(name);
    out.append("(");
    push_char_debug(out, c);
    out.append(")");
    proof {
        assert(out@ =~= start + char_variant_debug(name@, c));
    }
}

fn push_str_variant_debug(out: &mut String, name: &str, s: &str)
    ensures
        final(out)@ == old(out)@ + str_variant_debug(name@, s@),
{
    let ghost start = out@;
    out.append(name);
    out.append("(");
    push_str_debug(out, s);
    out.append(")");
    proof {
        assert(out@ =~= start + str_variant_debug(name@, s@));
    }
}

/// Appends the `Debug` rendering of a token.
pub fn push_token_debug<'a>(out: &mut String, t: Token<'a>)
    ensures
        final(out)@ == old(out)@ + token_debug(t),
{
    let ghost start = out@;
    match t {
        Token::Separator(c) => push_char_variant_debug(out, "Separator", c),
        Token::Paren(c) => push_char_variant_debug(out, "Paren", c),
        Token::Attribute => out.append("Attribute"),
        Token::Number(r) => {
            out.append("Number(");
            match r {
                Ok(n) => {
                    out.append("Ok(");
                    push_number_debug(out, n);
                    out.append(")");
                },
                Err(e) => {
                    out.append("Err(");
                    push_number_error_debug(out, e);
                    out.append(")");
                },
            }
            out.append(")");
            proof {
                assert(out@ =~= start + token_debug(t));
            }
        },
        Token::Word(s) => push_str_variant_debug(out, "Word", s),
        Token::Operation(c) => push_char_variant_debug(out, "Operation", c),
        Token::LogicalOperation(c) => push_char_variant_debug(out, "LogicalOperation", c),
        Token::ShiftOperation(c) => push_char_variant_debug(out, "ShiftOperation", c),
        Token::AssignmentOperation(c) => push_char_variant_debug(out, "AssignmentOperation", c),
        Token::IncrementOperation => out.append("IncrementOperation"),
        Token::DecrementOperation => out.append("DecrementOperation"),
        Token::Arrow => out.append("Arrow"),
        Token::Unknown(c) => push_char_variant_debug(out, "Unknown", c),
        Token::Trivia => out.append("Trivia"),
        Token::DocComment(s) => push_str_variant_debug(out, "DocComment", s),
        Token::ModuleDocComment(s) => push_str_variant_debug(out, "ModuleDocComment", s),
        Token::End => out.append("End"),
    }
}

/// `Debug` rendering of what the parser expected.
pub open spec fn expected_debug<'a>(e: ExpectedToken<'a>) -> Seq<char> {
    match e {
        ExpectedToken::Token(t) => "Token("@ + token_debug(t) + ")"@,
        ExpectedToken::Identifier => "Identifier"@,
        ExpectedToken::AfterIdentListComma => "AfterIdentListComma"@,
        ExpectedToken::AfterIdentListArg => "AfterIdentListArg"@,
        ExpectedToken::PrimaryExpression => "PrimaryExpression"@,
        ExpectedToken::Assignment => "Assignment"@,
        ExpectedToken::SwitchItem => "SwitchItem"@,
        ExpectedToken::WorkgroupSizeSeparator => "WorkgroupSizeSeparator"@,
        ExpectedToken::GlobalItem => "GlobalItem"@,
        ExpectedToken::Type => "Type"@,
        ExpectedToken::Variable => "Variable"@,
        ExpectedToken::Function => "Function"@,
        ExpectedToken::DiagnosticAttribute => "DiagnosticAttribute"@,
    }
}

/// Appends the `Debug` rendering of what the parser expected.
pub fn push_expected_debug<'a>(out: &mut String, e: ExpectedToken<'a>)
    ensures
        final(out)@ == old(out)@ + expected_debug(e),
{
    let ghost start = out@;
    match e {
        ExpectedToken::Token(t) => {
            out.append("Token(");
            push_token_debug(out, t);
            out.append(")");
            proof {
                assert(out@ =~= start + expected_debug(e));
            }
        },
        ExpectedToken::Identifier => out.append("Identifier"),
        ExpectedToken::AfterIdentListComma => out.append("AfterIdentListComma"),
        ExpectedToken::AfterIdentListArg => out.append("AfterIdentListArg"),
        ExpectedToken::PrimaryExpression => out.append("PrimaryExpression"),
        ExpectedToken::Assignment => out.append("Assignment"),
        ExpectedToken::SwitchItem => out.append("SwitchItem"),
        ExpectedToken::WorkgroupSizeSeparator => out.append("WorkgroupSizeSeparator"),
        ExpectedToken::GlobalItem => out.append("GlobalItem"),
        ExpectedToken::Type => out.append("Type"),
        ExpectedToken::Variable => out.append("Variable"),
        ExpectedToken::Function => out.append("Function"),
        ExpectedToken::DiagnosticAttribute => out.append("DiagnosticAttribute"),
    }
}

/// `Debug` rendering of an alignment.
pub open spec fn alignment_debug(a: Alignment) -> Seq<char> {
    "Alignment("@ + dec(a.0 as nat) + ")"@
}

/// Appends the `Debug` rendering of an alignment.
pub fn push_alignment_debug(out: &mut String, a: Alignment)
    ensures
        final(out)@ == old(out)@ + alignment_debug(a),
{
    let ghost start = out@;
    out.append("Alignment(");
    push_dec(out, a.0 as u64);
    out.append(")");
    proof {
        assert(out@ =~= start + alignment_debug(a));
    }
}

/// `Debug` rendering of the reason why an assignment is invalid.
pub open spec fn invalid_assignment_debug(t: InvalidAssignmentType) -> Seq<char> {
    match t {
        InvalidAssignmentType::Other => "Other"@,
        InvalidAssignmentType::Swizzle => "Swizzle"@,
        InvalidAssignmentType::ImmutableBinding(s) => "ImmutableBinding("@ + span_debug(s) + ")"@,
    }
}

/// Appends the `Debug` rendering of the reason why an assignment is invalid.
pub fn push_invalid_assignment_debug(out: &mut String, t: InvalidAssignmentType)
    ensures
        final(out)@ == old(out)@ + invalid_assignment_debug(t),
{
    let ghost start = out@;
    match t {
        InvalidAssignmentType::Other => out.append("Other"),
        InvalidAssignmentType::Swizzle => out.append("Swizzle"),
        InvalidAssignmentType::ImmutableBinding(s) => {
            out.append("ImmutableBinding(");
            push_span_debug(out, s);
            out.append(")");
            proof {
                assert(out@ =~= start + invalid_assignment_debug(t));
            }
        },
    }
}

/// `Debug` rendering of a type-resolution error: the text it carries.
pub open spec fn resolve_error_debug(e: ResolveError) -> Seq<char> {
    e.debug@
}

/// Appends the `Debug` rendering of a type-resolution error.
pub fn push_resolve_error_debug(out: &mut String, e: &ResolveError)
    ensures
        final(out)@ == old(out)@ + resolve_error_debug(*e),
{
    out.append(e.debug.as_str());
}

/// `Debug` rendering of a constant-evaluation error: the text it carries.
pub open spec fn constant_evaluator_error_debug(e: ConstantEvaluatorError) -> Seq<char> {
    e.debug@
}

/// Appends the `Debug` rendering of a constant-evaluation error.
pub fn push_constant_evaluator_error_debug(out: &mut String, e: &ConstantEvaluatorError)
    ensures
        final(out)@ == old(out)@ + constant_evaluator_error_debug(*e),
{
    out.append(e.debug.as_str());
}

/// `Debug` rendering of an automatic-conversion error.
pub open spec fn auto_conversion_debug(e: AutoConversionError) -> Seq<char> {
    "AutoConversionError { dest_span: "@ + span_debug(e.dest_span)
        + ", dest_type: "@ + str_debug_text(e.dest_type@)
        + ", source_span: "@ + span_debug(e.source_span)
        + ", source_type: "@ + str_debug_text(e.source_type@) + " }"@
}

/// Appends the `Debug` rendering of an automatic-conversion error.
pub fn push_auto_conversion_debug(out: &mut String, e: &AutoConversionError)
    ensures
        final(out)@ == old(out)@ + auto_conversion_debug(*e),
{
    let ghost start = out@;
    out.append("AutoConversionError { dest_span: ");
    push_span_debug(out, e.dest_span);
    out.append(", dest_type: ");
    push_str_debug(out, e.dest_type.as_str());
    out.append(", source_span: ");
    push_span_debug(out, e.source_span);
    out.append(", source_type: ");
    push_str_debug(out, e.source_type.as_str());
    out.append(" }");
    proof {
        assert(out@ =~= start + auto_conversion_debug(*e));
    }
}

/// `Debug` rendering of an automatic leaf-scalar conversion error.
pub open spec fn auto_conversion_leaf_scalar_debug(e: AutoConversionLeafScalarError) -> Seq<char> {
    "AutoConversionLeafScalarError { dest_span: "@ + span_debug(e.dest_span)
        + ", dest_scalar: "@ + str_debug_text(e.dest_scalar@)
        + ", source_span: "@ + span_debug(e.source_span)
        + ", source_type: "@ + str_debug_text(e.source_type@) + " }"@
}

/// Appends the `Debug` rendering of an automatic leaf-scalar conversion error.
pub fn push_auto_conversion_leaf_scalar_debug(out: &mut String, e: &AutoConversionLeafScalarError)
    ensures
        final(out)@ == old(out)@ + auto_conversion_leaf_scalar_debug(*e),
{
    let ghost start = out@;
    out.append("AutoConversionLeafScalarError { dest_span: ");
    push_span_debug(out, e.dest_span);
    out.append(", dest_scalar: ");
    push_str_debug(out, e.dest_scalar.as_str());
    out.append(", source_span: ");
    push_span_debug(out, e.source_span);
    out.append(", source_type: ");
    push_str_debug(out, e.source_type.as_str());
    out.append(" }");
    proof {
        assert(out@ =~= start + auto_conversion_leaf_scalar_debug(*e));
    }
}

/// `Debug` rendering of a failed concretization.
pub open spec fn concretization_failed_debug(e: ConcretizationFailedError) -> Seq<char> {
    "ConcretizationFailedError { expr_span: "@ + span_debug(e.expr_span)
        + ", expr_type: "@ + str_debug_text(e.expr_type@)
        + ", scalar: "@ + str_debug_text(e.scalar@)
        + ", inner: "@ + constant_evaluator_error_debug(e.inner) + " }"@
}

/// Appends the `Debug` rendering of a failed concretization.
pub fn push_concretization_failed_debug(out: &mut String, e: &ConcretizationFailedError)
    ensures
        final(out)@ == old(out)@ + concretization_failed_debug(*e),
{
    let ghost start = out@;
    out.append("ConcretizationFailedError { expr_span: ");
    push_span_debug(out, e.expr_span);
    out.append(", expr_type: ");
    push_str_debug(out, e.expr_type.as_str());
    out.append(", scalar: ");
    push_str_debug(out, e.scalar.as_str());
    out.append(", inner: ");
    push_constant_evaluator_error_debug(out, &e.inner);
    out.append(" }");
    proof {
        assert(out@ =~= start + concretization_failed_debug(*e));
    }
}

/// `Debug` rendering of an unimplemented `enable` extension: the name of
/// its kind.
pub open spec fn unimplemented_enable_debug(k: UnimplementedEnableExtension) -> Seq<char> {
    k.name@
}

/// Appends the `Debug` rendering of an unimplemented `enable` extension.
pub fn push_unimplemented_enable_debug(out: &mut String, k: UnimplementedEnableExtension)
    ensures
        final(out)@ == old(out)@ + unimplemented_enable_debug(k),
{
    out.append(k.name);
}

/// `Debug` rendering of an `enable` extension.
pub open spec fn enable_extension_debug(k: EnableExtension) -> Seq<char> {
    match k {
        EnableExtension::Implemented(i) => "Implemented("@ + i.name@ + ")"@,
        EnableExtension::Unimplemented(u) => "Unimplemented("@ + unimplemented_enable_debug(u) + ")"@,
    }
}

/// Appends the `Debug` rendering of an `enable` extension.
pub fn push_enable_extension_debug(out: &mut String, k: EnableExtension)
    ensures
        final(out)@ == old(out)@ + enable_extension_debug(k),
{
    let ghost start = out@;
    match k {
        EnableExtension::Implemented(i) => {
            out.append("Implemented(");
            out.append(i.name);
            out.append(")");
        },
        EnableExtension::Unimplemented(u) => {
            out.append("Unimplemented(");
            push_unimplemented_enable_debug(out, u);
            out.append(")");
        },
    }
    proof {
        assert(out@ =~= start + enable_extension_debug(k));
    }
}

/// `Debug` rendering of an unimplemented language extension: the name of
/// its kind.
pub open spec fn unimplemented_language_debug(k: UnimplementedLanguageExtension) -> Seq<char> {
    k.name@
}

/// Appends the `Debug` rendering of an unimplemented language extension.
pub fn push_unimplemented_language_debug(out: &mut String, k: UnimplementedLanguageExtension)
    ensures
        final(out)@ == old(out)@ + unimplemented_language_debug(k),
{
    out.append(k.name);
}

/// `Debug` rendering of a pair of conflicting `diagnostic(…)` rules.
pub open spec fn conflicting_rule_debug(e: ConflictingDiagnosticRuleError) -> Seq<char> {
    "ConflictingDiagnosticRuleError { triggering_rule_spans: ["@ + span_debug(e.triggering_rule_spans[0])
        + ", "@ + span_debug(e.triggering_rule_spans[1]) + "] }"@
}

/// Appends the `Debug` rendering of a pair of conflicting `diagnostic(…)` rules.
pub fn push_conflicting_rule_debug(out: &mut String, e: &ConflictingDiagnosticRuleError)
    ensures
        final(out)@ == old(out)@ + conflicting_rule_debug(*e),
{
    let ghost start = out@;
    out.append("ConflictingDiagnosticRuleError { triggering_rule_spans: [");
    push_span_debug(out, e.triggering_rule_spans[0]);
    out.append(", ");
    push_span_debug(out, e.triggering_rule_spans[1]);
    out.append("] }");
    proof {
        assert(out@ =~= start + conflicting_rule_debug(*e));
    }
}

/// `Debug` rendering of where an unsupported `@diagnostic(…)` attribute was found.
pub open spec fn position_debug(p: DiagnosticAttributeNotSupportedPosition) -> Seq<char> {
    match p {
        DiagnosticAttributeNotSupportedPosition::SemicolonInModulePosition => "SemicolonInModulePosition"@,
        DiagnosticAttributeNotSupportedPosition::Other { display_plural } =>
            "Other { display_plural: "@ + str_debug_text(display_plural@) + " }"@,
    }
}

/// Appends the `Debug` rendering of where an unsupported `@diagnostic(…)` attribute was found.
pub fn push_position_debug(out: &mut String, p: DiagnosticAttributeNotSupportedPosition)
    ensures
        final(out)@ == old(out)@ + position_debug(p),
{
    let ghost start = out@;
    match p {
        DiagnosticAttributeNotSupportedPosition::SemicolonInModulePosition => out.append("SemicolonInModulePosition"),
        DiagnosticAttributeNotSupportedPosition::Other { display_plural } => {
            out.append("Other { display_plural: ");
            push_str_debug(out, display_plural);
            out.append(" }");
            proof {
                assert(out@ =~= start + position_debug(p));
            }
        },
    }
}

} // verus!
