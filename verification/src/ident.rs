//! Naming and escaping of generated identifiers: literal arguments are
//! rendered as fragments that are legal inside a function name.

use crate::meta::{lit_wf, LitValue};
use crate::text::{all_num_chars, is_dec_digit};
use vstd::prelude::*;

verus! {

/// Whether a character may stand in a generated identifier unchanged: an
/// ASCII digit or letter.
pub open spec fn is_ident_char(c: char) -> bool {
    is_dec_digit(c) || (97 <= c as int && c as int <= 122) || (65 <= c as int && c as int <= 90)
}

/// The escaping of one identifier character: digits and ASCII letters stay,
/// everything else becomes an underscore.
pub open spec fn ident_escape(c: char) -> char {
    if is_ident_char(c) {
        c
    } else {
        '_'
    }
}

/// The identifier fragment a string renders as.
pub open spec fn spec_string_to_identifier(s: Seq<char>) -> Seq<char> {
    s.map_values(|c: char| ident_escape(c))
}

/// The escaping of one number character: the decimal point becomes a `d`,
/// digits stay.
pub open spec fn num_escape(c: char) -> char {
    if c == '.' {
        'd'
    } else {
        c
    }
}

/// The identifier fragment a number's base-ten digits render as.
pub open spec fn spec_number_to_identifier(s: Seq<char>) -> Seq<char> {
    s.map_values(|c: char| num_escape(c))
}

/// The identifier fragment each supported literal renders as.
pub open spec fn spec_lit_to_str(lit: LitValue) -> Seq<char> {
    match lit {
        LitValue::Bool(b) => if b {
            "true"@
        } else {
            "false"@
        },
        LitValue::Str(s) => spec_string_to_identifier(s@),
        LitValue::Int(d) => spec_number_to_identifier(d@),
        LitValue::Float(d) => spec_number_to_identifier(d@),
        LitValue::Unsupported => Seq::empty(),
    }
}

/// Collect characters into a string.
///
/// Relies on `String`'s `FromIterator<char>` implementation: collecting an
/// iterator of characters yields the string of exactly those characters,
/// in order.
#[verifier::external_body]
fn chars_to_string(v: &Vec<char>) -> (r: String)
    ensures
        r@ == v@,
{
    v.iter().collect()
}

/// Render a string literal's text as an identifier fragment: ASCII digits
/// and letters are kept and every other character is escaped to an
/// underscore.
pub fn string_to_identifier(num: &str) -> (r: String)
    ensures
        r@ == spec_string_to_identifier(num@),
{
    let n = num.unicode_len();
    let mut out: Vec<char> = Vec::new();
    let mut i: usize = 0;
    while i < n
        invariant
            n == num@.len(),
            i <= n,
            out@ == spec_string_to_identifier(num@.subrange(0, i as int)),
        decreases n - i,
    {
        let c = num.get_char(i);
        let cv: u32 = c as u32;
        if (48 <= cv && cv <= 57) || (97 <= cv && cv <= 122) || (65 <= cv && cv <= 90) {
            out.push(c);
        } else {
            out.push('_');
        }
        proof {
            assert(out@ =~= spec_string_to_identifier(num@.subrange(0, i + 1)));
        }
        i = i + 1;
    }
    proof {
        assert(num@.subrange(0, n as int) =~= num@);
    }
    chars_to_string(&out)
}

/// Render a number's base-ten digits as an identifier fragment: the
/// decimal point becomes a `d` and the digits stay as they are.
pub fn number_to_identifier(num: &str) -> (r: String)
    requires
        all_num_chars(num@),
    ensures
        r@ == spec_number_to_identifier(num@),
{
    let n = num.unicode_len();
    let mut out: Vec<char> = Vec::new();
    let mut i: usize = 0;
    while i < n
        invariant
            n == num@.len(),
            i <= n,
            out@ == spec_number_to_identifier(num@.subrange(0, i as int)),
        decreases n - i,
    {
        let c = num.get_char(i);
        if c == '.' {
            out.push('d');
        } else {
            out.push(c);
        }
        proof {
            assert(out@ =~= spec_number_to_identifier(num@.subrange(0, i + 1)));
        }
        i = i + 1;
    }
    proof {
        assert(num@.subrange(0, n as int) =~= num@);
    }
    chars_to_string(&out)
}

/// Render a supported literal as an identifier fragment: booleans by their
/// names, strings by escaping, numbers by their digits with the decimal
/// point escaped.
pub fn lit_to_str(lit: &LitValue) -> (r: String)
    requires
        lit_wf(*lit),
        !(*lit is Unsupported),
    ensures
        r@ == spec_lit_to_str(*lit),
{
    match lit {
        LitValue::Bool(b) => {
            if *b {
                String::from_str("true")
            } else {
                String::from_str("false")
            }
        },
        LitValue::Str(s) => string_to_identifier(s.as_str()),
        LitValue::Int(d) => number_to_identifier(d.as_str()),
        LitValue::Float(d) => number_to_identifier(d.as_str()),
        LitValue::Unsupported => String::new(),
    }
}

} // verus!
