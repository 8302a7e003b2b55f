//! Building message text: decimal numbers, escaped (debug) text and
//! concatenation, each with a specification over `Seq<char>`.

use vstd::prelude::*;
use vstd::string::*;
use crate::error::strings_view;

verus! {

/// `String::push` appends one character.
pub assume_specification[ std::string::String::push ](s: &mut String, ch: char)
    ensures
        final(s)@ == old(s)@.push(ch),
;

/// The character of a decimal digit.
pub open spec fn digit_char(d: nat) -> char {
    if d == 0 { '0' }
    else if d == 1 { '1' }
    else if d == 2 { '2' }
    else if d == 3 { '3' }
    else if d == 4 { '4' }
    else if d == 5 { '5' }
    else if d == 6 { '6' }
    else if d == 7 { '7' }
    else if d == 8 { '8' }
    else { '9' }
}

/// Decimal notation of a natural number, without leading zeros.
pub open spec fn dec(n: nat) -> Seq<char>
    decreases n,
{
    if n < 10 {
        seq![digit_char(n)]
    } else {
        dec(n / 10).push(digit_char(n % 10))
    }
}

/// Decimal notation of an integer, with a leading `-` when negative
/// (what `Display` prints for Rust's integer types).
pub open spec fn dec_int(i: int) -> Seq<char> {
    if i < 0 {
        seq!['-'] + dec((-i) as nat)
    } else {
        dec(i as nat)
    }
}

fn digit(d: u64) -> (c: char)
    requires
        d < 10,
    ensures
        c == digit_char(d as nat),
{
    if d == 0 { '0' }
    else if d == 1 { '1' }
    else if d == 2 { '2' }
    else if d == 3 { '3' }
    else if d == 4 { '4' }
    else if d == 5 { '5' }
    else if d == 6 { '6' }
    else if d == 7 { '7' }
    else if d == 8 { '8' }
    else { '9' }
}

/// Appends the decimal notation of `n`.
pub fn push_dec(out: &mut String, n: u64)
    ensures
        final(out)@ == old(out)@ + dec(n as nat),
    decreases n,
{
    if n >= 10 {
        push_dec(out, n / 10);
    }
    out.push(digit(n % 10));
}

/// Appends the decimal notation of a signed `n`.
pub fn push_dec_signed(out: &mut String, n: i64)
    ensures
        final(out)@ == old(out)@ + dec_int(n as int),
{
    if n < 0 {
        out.push('-');
        let m: i128 = -(n as i128);
        push_dec(out, m as u64);
    } else {
        push_dec(out, n as u64);
    }
}


/// The text that `Debug` prints for a string slice: the string in double
/// quotes, with quotes, backslashes and non-printable characters escaped.
pub uninterp spec fn str_debug_text(s: Seq<char>) -> Seq<char>;

/// The text that `Debug` prints for a character: the character in single
/// quotes, with quotes, backslashes and non-printable characters escaped.
pub uninterp spec fn char_debug_text(c: char) -> Seq<char>;

/// Calls `<str as Debug>::fmt` (through `format!("{:?}")`). The contract
/// names the result: the same text always prints the same way.
#[verifier::external_body]
pub(crate) fn str_debug(s: &str) -> (r: String)
    ensures
        r@ == str_debug_text(s@),
{
    format!("{:?}", s)
}

/// Calls `<char as Debug>::fmt` (through `format!("{:?}")`). The contract
/// names the result: the same character always prints the same way.
#[verifier::external_body]
pub(crate) fn char_debug(c: char) -> (r: String)
    ensures
        r@ == char_debug_text(c),
{
    format!("{:?}", c)
}

/// A `String` holding `s`.
pub fn lit(s: &str) -> (r: String)
    ensures
        r@ == s@,
{
    let mut r = String::new();
    r.append(s);
    r
}

/// The concatenation of two texts.
pub fn cat2(a: &str, b: &str) -> (r: String)
    ensures
        r@ == a@ + b@,
{
    let mut r = String::new();
    r.append(a);
    r.append(b);
    r
}

/// The concatenation of three texts.
pub fn cat3(a: &str, b: &str, c: &str) -> (r: String)
    ensures
        r@ == a@ + b@ + c@,
{
    let mut r = cat2(a, b);
    r.append(c);
    r
}

/// The concatenation of four texts.
pub fn cat4(a: &str, b: &str, c: &str, d: &str) -> (r: String)
    ensures
        r@ == a@ + b@ + c@ + d@,
{
    let mut r = cat3(a, b, c);
    r.append(d);
    r
}

/// The concatenation of five texts.
pub fn cat5(a: &str, b: &str, c: &str, d: &str, e: &str) -> (r: String)
    ensures
        r@ == a@ + b@ + c@ + d@ + e@,
{
    let mut r = cat4(a, b, c, d);
    r.append(e);
    r
}

/// The concatenation of six texts.
pub fn cat6(a: &str, b: &str, c: &str, d: &str, e: &str, f: &str) -> (r: String)
    ensures
        r@ == a@ + b@ + c@ + d@ + e@ + f@,
{
    let mut r = cat5(a, b, c, d, e);
    r.append(f);
    r
}

/// Decimal notation of `n` (what `Display` prints for unsigned integers).
pub fn dec_string(n: u64) -> (r: String)
    ensures
        r@ == dec(n as nat),
{
    let mut r = String::new();
    push_dec(&mut r, n);
    r
}

/// Decimal notation of `n` (what `Display` prints for signed integers).
pub fn dec_string_signed(n: i64) -> (r: String)
    ensures
        r@ == dec_int(n as int),
{
    let mut r = String::new();
    push_dec_signed(&mut r, n);
    r
}

/// Texts, each followed by a newline, one after the other.
pub open spec fn each_line(parts: Seq<Seq<char>>) -> Seq<char>
    decreases parts.len(),
{
    if parts.len() == 0 {
        Seq::empty()
    } else {
        each_line(parts.drop_last()) + parts.last() + seq!['\n']
    }
}

/// Texts, each followed by a newline, one after the other.
pub fn lines_joined(parts: &Vec<String>) -> (r: String)
    ensures
        r@ == each_line(strings_view(parts@)),
{
    let mut out = String::new();
    let mut i: usize = 0;
    while i < parts.len()
        invariant
            i <= parts@.len(),
            out@ == each_line(strings_view(parts@.subrange(0, i as int))),
        decreases parts@.len() - i,
    {
        out.append(parts[i].as_str());
        out.push('\n');
        proof {
            let prev = strings_view(parts@.subrange(0, i as int));
            let next = strings_view(parts@.subrange(0, i + 1));
            assert(next.drop_last() =~= prev);
            assert(next.last() == parts@[i as int]@);
        }
        i = i + 1;
    }
    proof {
        assert(parts@.subrange(0, i as int) =~= parts@);
    }
    out
}

/// A one-character text.
pub fn char_string(c: char) -> (r: String)
    ensures
        r@ == seq![c],
{
    let mut r = String::new();
    r.push(c);
    r
}

} // verus!
