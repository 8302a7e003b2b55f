//! The wording of tokens, scalar types, numeric-literal errors and the
//! other small values that error messages quote.

use vstd::prelude::*;
use vstd::string::*;
use crate::text::{dec, lit, cat3, cat4, cat5, char_string, dec_string, push_dec};
use crate::types::{
    Alignment, EnableExtension, ExpectedToken, NumberError, Scalar, ScalarKind, Token,
};

verus! {

/// How a message names what the parser expected.
pub open spec fn expected_text<'a>(e: ExpectedToken<'a>) -> Seq<char> {
    match e {
        ExpectedToken::Token(token) => match token {
            Token::Separator(c) => "`"@ + seq![c] + "`"@,
            Token::Paren(c) => "`"@ + seq![c] + "`"@,
            Token::Attribute => "@"@,
            Token::Number(_) => "number"@,
            Token::Word(s) => s@,
            Token::Operation(c) => "operation (`"@ + seq![c] + "`)"@,
            Token::LogicalOperation(c) => "logical operation (`"@ + seq![c] + "`)"@,
            Token::ShiftOperation(c) => "bitshift (`"@ + seq![c] + seq![c] + "`)"@,
            Token::AssignmentOperation(c) => if c == '<' || c == '>' {
                "bitshift (`"@ + seq![c] + seq![c] + "=`)"@
            } else {
                "operation (`"@ + seq![c] + "=`)"@
            },
            Token::IncrementOperation => "increment operation"@,
            Token::DecrementOperation => "decrement operation"@,
            Token::Arrow => "->"@,
            Token::Unknown(c) => "unknown (`"@ + seq![c] + "`)"@,
            Token::Trivia => "trivia"@,
            Token::DocComment(s) => "doc comment ('"@ + s@ + "')"@,
            Token::ModuleDocComment(s) => "module doc comment ('"@ + s@ + "')"@,
            Token::End => "end"@,
        },
        ExpectedToken::Identifier => "identifier"@,
        ExpectedToken::PrimaryExpression => "expression"@,
        ExpectedToken::Assignment => "assignment or increment/decrement"@,
        ExpectedToken::SwitchItem => "switch item (`case` or `default`) or a closing curly bracket to signify the end of the switch statement (`}`)"@,
        ExpectedToken::WorkgroupSizeSeparator => "workgroup size separator (`,`) or a closing parenthesis"@,
        ExpectedToken::GlobalItem => "global item (`struct`, `const`, `var`, `alias`, `fn`, `diagnostic`, `enable`, `requires`, `;`) or the end of the file"@,
        ExpectedToken::Type => "type"@,
        ExpectedToken::Variable => "variable access"@,
        ExpectedToken::Function => "function name"@,
        ExpectedToken::AfterIdentListArg => "next argument, trailing comma, or end of list (`,` or `;`)"@,
        ExpectedToken::AfterIdentListComma => "next argument or end of list (`;`)"@,
        ExpectedToken::DiagnosticAttribute => "the `diagnostic` attribute identifier"@,
    }
}

fn token_text<'a>(token: Token<'a>) -> (r: String)
    ensures
        r@ == expected_text(ExpectedToken::Token(token)),
{
    match token {
        Token::Separator(c) => {
            let cs = char_string(c);
            cat3("`", cs.as_str(), "`")
        },
        Token::Paren(c) => {
            let cs = char_string(c);
            cat3("`", cs.as_str(), "`")
        },
        Token::Attribute => lit("@"),
        Token::Number(_) => lit("number"),
        Token::Word(s) => lit(s),
        Token::Operation(c) => {
            let cs = char_string(c);
            cat3("operation (`", cs.as_str(), "`)")
        },
        Token::LogicalOperation(c) => {
            let cs = char_string(c);
            cat3("logical operation (`", cs.as_str(), "`)")
        },
        Token::ShiftOperation(c) => {
            let cs = char_string(c);
            cat4("bitshift (`", cs.as_str(), cs.as_str(), "`)")
        },
        Token::AssignmentOperation(c) => {
            let cs = char_string(c);
            if c == '<' || c == '>' {
                cat4("bitshift (`", cs.as_str(), cs.as_str(), "=`)")
            } else {
                cat3("operation (`", cs.as_str(), "=`)")
            }
        },
        Token::IncrementOperation => lit("increment operation"),
        Token::DecrementOperation => lit("decrement operation"),
        Token::Arrow => lit("->"),
        Token::Unknown(c) => {
            let cs = char_string(c);
            cat3("unknown (`", cs.as_str(), "`)")
        },
        Token::Trivia => lit("trivia"),
        Token::DocComment(s) => cat3("doc comment ('", s, "')"),
        Token::ModuleDocComment(s) => cat3("module doc comment ('", s, "')"),
        Token::End => lit("end"),
    }
}

/// How a message names what the parser expected.
pub fn expected_string<'a>(e: ExpectedToken<'a>) -> (r: String)
    ensures
        r@ == expected_text(e),
{
    match e {
        ExpectedToken::Token(token) => token_text(token),
        ExpectedToken::Identifier => lit("identifier"),
        ExpectedToken::PrimaryExpression => lit("expression"),
        ExpectedToken::Assignment => lit("assignment or increment/decrement"),
        ExpectedToken::SwitchItem => lit("switch item (`case` or `default`) or a closing curly bracket to signify the end of the switch statement (`}`)"),
        ExpectedToken::WorkgroupSizeSeparator => lit("workgroup size separator (`,`) or a closing parenthesis"),
        ExpectedToken::GlobalItem => lit("global item (`struct`, `const`, `var`, `alias`, `fn`, `diagnostic`, `enable`, `requires`, `;`) or the end of the file"),
        ExpectedToken::Type => lit("type"),
        ExpectedToken::Variable => lit("variable access"),
        ExpectedToken::Function => lit("function name"),
        ExpectedToken::AfterIdentListArg => lit("next argument, trailing comma, or end of list (`,` or `;`)"),
        ExpectedToken::AfterIdentListComma => lit("next argument or end of list (`;`)"),
        ExpectedToken::DiagnosticAttribute => lit("the `diagnostic` attribute identifier"),
    }
}

/// The message of a numeric-literal error.
pub open spec fn number_error_text(e: NumberError) -> Seq<char> {
    match e {
        NumberError::Invalid => "invalid numeric literal format"@,
        NumberError::NotRepresentable => "numeric literal not representable by target type"@,
    }
}

impl NumberError {
    /// The message of the error.
    pub fn message(&self) -> (r: String)
        ensures
            r@ == number_error_text(*self),
    {
        match self {
            NumberError::Invalid => lit("invalid numeric literal format"),
            NumberError::NotRepresentable => lit("numeric literal not representable by target type"),
        }
    }
}

/// The name of a scalar kind (as `Debug` prints it).
pub open spec fn scalar_kind_name(k: ScalarKind) -> Seq<char> {
    match k {
        ScalarKind::Sint => "Sint"@,
        ScalarKind::Uint => "Uint"@,
        ScalarKind::Float => "Float"@,
        ScalarKind::Bool => "Bool"@,
        ScalarKind::AbstractInt => "AbstractInt"@,
        ScalarKind::AbstractFloat => "AbstractFloat"@,
    }
}

/// `Debug` rendering of a scalar type.
pub open spec fn scalar_debug(s: Scalar) -> Seq<char> {
    "Scalar { kind: "@ + scalar_kind_name(s.kind) + ", width: "@ + dec(s.width as nat) + " }"@
}

/// The WGSL name of a scalar type, where WGSL has one.
pub open spec fn scalar_wgsl_name(s: Scalar) -> Option<Seq<char>> {
    match (s.kind, s.width) {
        (ScalarKind::Float, 2) => Some("f16"@),
        (ScalarKind::Float, 4) => Some("f32"@),
        (ScalarKind::Float, 8) => Some("f64"@),
        (ScalarKind::Sint, 4) => Some("i32"@),
        (ScalarKind::Uint, 4) => Some("u32"@),
        (ScalarKind::Sint, 8) => Some("i64"@),
        (ScalarKind::Uint, 8) => Some("u64"@),
        (ScalarKind::Bool, 1) => Some("bool"@),
        _ => None,
    }
}

/// How diagnostics name a scalar type: its WGSL name, or a description in
/// braces for scalars that WGSL cannot name.
pub open spec fn scalar_diagnostic_text(s: Scalar) -> Seq<char> {
    match scalar_wgsl_name(s) {
        Some(name) => name,
        None => match s.kind {
            ScalarKind::AbstractInt => "{AbstractInt}"@,
            ScalarKind::AbstractFloat => "{AbstractFloat}"@,
            _ => "{non-wgsl scalar "@ + scalar_debug(s) + "}"@,
        },
    }
}

fn scalar_kind_string(k: ScalarKind) -> (r: String)
    ensures
        r@ == scalar_kind_name(k),
{
    match k {
        ScalarKind::Sint => lit("Sint"),
        ScalarKind::Uint => lit("Uint"),
        ScalarKind::Float => lit("Float"),
        ScalarKind::Bool => lit("Bool"),
        ScalarKind::AbstractInt => lit("AbstractInt"),
        ScalarKind::AbstractFloat => lit("AbstractFloat"),
    }
}

impl Scalar {
    /// `Debug` rendering of the scalar type.
    pub fn debug_string(&self) -> (r: String)
        ensures
            r@ == scalar_debug(*self),
    {
        let k = scalar_kind_string(self.kind);
        let w = dec_string(self.width as u64);
        cat5("Scalar { kind: ", k.as_str(), ", width: ", w.as_str(), " }")
    }

    /// How diagnostics name the scalar type.
    pub fn to_wgsl_for_diagnostics(&self) -> (r: String)
        ensures
            r@ == scalar_diagnostic_text(*self),
    {
        match (self.kind, self.width) {
            (ScalarKind::Float, 2) => lit("f16"),
            (ScalarKind::Float, 4) => lit("f32"),
            (ScalarKind::Float, 8) => lit("f64"),
            (ScalarKind::Sint, 4) => lit("i32"),
            (ScalarKind::Uint, 4) => lit("u32"),
            (ScalarKind::Sint, 8) => lit("i64"),
            (ScalarKind::Uint, 8) => lit("u64"),
            (ScalarKind::Bool, 1) => lit("bool"),
            _ => match self.kind {
                ScalarKind::AbstractInt => lit("{AbstractInt}"),
                ScalarKind::AbstractFloat => lit("{AbstractFloat}"),
                _ => {
                    let d = self.debug_string();
                    cat3("{non-wgsl scalar ", d.as_str(), "}")
                },
            },
        }
    }
}

/// `Display` rendering of an alignment: its number of bytes.
pub open spec fn alignment_text(a: Alignment) -> Seq<char> {
    dec(a.0 as nat)
}

impl Alignment {
    /// `Display` rendering of the alignment.
    pub fn display_string(&self) -> (r: String)
        ensures
            r@ == alignment_text(*self),
    {
        dec_string(self.0 as u64)
    }
}

/// `Debug` rendering of a `u32` range: `start..end`.
pub open spec fn range_debug(r: core::ops::Range<u32>) -> Seq<char> {
    dec(r.start as nat) + ".."@ + dec(r.end as nat)
}

/// `Debug` rendering of a `u32` range.
pub fn range_debug_string(r: &core::ops::Range<u32>) -> (s: String)
    ensures
        s@ == range_debug(*r),
{
    let mut s = String::new();
    push_dec(&mut s, r.start as u64);
    s.append("..");
    push_dec(&mut s, r.end as u64);
    s
}

/// The name by which WGSL source names an `enable` extension.
pub open spec fn enable_extension_ident(k: EnableExtension) -> Seq<char> {
    match k {
        EnableExtension::Implemented(i) => i.ident@,
        EnableExtension::Unimplemented(u) => u.ident@,
    }
}

impl EnableExtension {
    /// The name by which WGSL source names the extension.
    pub fn to_ident(&self) -> (r: &'static str)
        ensures
            r@ == enable_extension_ident(*self),
    {
        match self {
            EnableExtension::Implemented(i) => i.ident,
            EnableExtension::Unimplemented(u) => u.ident,
        }
    }
}

} // verus!
