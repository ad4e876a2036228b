//! Typed literal values carried by the leaves of an expression tree,
//! together with their deterministic textual rendering.

use vstd::prelude::*;

verus! {

/// A data type descriptor, used to give an explicit type to a null
/// literal. The tree carries no other type information.
#[derive(Debug, Clone, Copy, PartialEq, Eq, Structural)]
pub enum DataType {
    Boolean,
    Integer,
    String,
}

/// A typed literal value.
#[derive(Debug, Clone)]
pub enum Scalar {
    /// A boolean literal.
    Boolean(bool),
    /// A signed integer literal.
    Integer(i64),
    /// A string literal.
    String(String),
    /// A typed null literal.
    Null(DataType),
}

/// The decimal digit character for `d`, which must lie in `0 ..= 9`.
pub open spec fn dec_digit(d: int) -> char {
    if d == 0 {
        '0'
    } else if d == 1 {
        '1'
    } else if d == 2 {
        '2'
    } else if d == 3 {
        '3'
    } else if d == 4 {
        '4'
    } else if d == 5 {
        '5'
    } else if d == 6 {
        '6'
    } else if d == 7 {
        '7'
    } else if d == 8 {
        '8'
    } else {
        '9'
    }
}

/// The decimal digit string of a non-negative integer, most significant
/// digit first, with no leading zeros (a single `'0'` for zero).
pub open spec fn dec_str_nat(n: nat) -> Seq<char>
    decreases n,
{
    if n < 10 {
        seq![dec_digit(n as int)]
    } else {
        dec_str_nat(n / 10) + seq![dec_digit((n % 10) as int)]
    }
}

/// The decimal rendering of a signed integer: a leading `'-'` for
/// negative values, then the digits of the magnitude.
pub open spec fn dec_str_int(i: int) -> Seq<char> {
    if i < 0 {
        seq!['-'] + dec_str_nat((-i) as nat)
    } else {
        dec_str_nat(i as nat)
    }
}

/// The textual rendering of a scalar: integers in decimal, booleans as
/// `true`/`false`, strings in single quotes, nulls as `null`.
pub open spec fn spec_render_scalar(s: Scalar) -> Seq<char> {
    match s {
        Scalar::Boolean(b) => if b {
            "true"@
        } else {
            "false"@
        },
        Scalar::Integer(i) => dec_str_int(i as int),
        Scalar::String(t) => "'"@ + t@ + "'"@,
        Scalar::Null(_) => "null"@,
    }
}

/// Relies on `i64::to_string` (the `Display` rendering of `i64`): the
/// decimal digits of the value, with a leading `-` for negative values
/// and no leading zeros.
#[verifier::external_body]
fn i64_to_string(i: i64) -> (r: String)
    ensures
        r@ == dec_str_int(i as int),
{
    i.to_string()
}

impl Scalar {
    /// Renders the scalar to its textual form. Total and deterministic:
    /// the result is a function of the scalar value alone.
    pub fn render(&self) -> (r: String)
        ensures
            r@ == spec_render_scalar(*self),
    {
        match self {
            Scalar::Boolean(b) => {
                if *b {
                    String::from_str("true")
                } else {
                    String::from_str("false")
                }
            },
            Scalar::Integer(i) => i64_to_string(*i),
            Scalar::String(t) => {
                let mut r = String::from_str("'");
                r.append(t.as_str());
                r.append("'");
                r
            },
            Scalar::Null(_) => String::from_str("null"),
        }
    }
}

} // verus!
