//! Numbers as the source text gives them.

use vstd::prelude::*;

verus! {

/// A number of the source text. A whole number is held by its value; a
/// number with a decimal point is held as it was written, sign and exponent
/// included, so that nothing is lost before it is turned into a binary
/// fraction. `S` is the type that holds the text.
#[derive(Clone, Debug, PartialEq)]
pub enum Number<S> {
    Int(i32),
    Float(S),
}

impl View for Number<String> {
    type V = Number<Seq<char>>;

    open spec fn view(&self) -> Number<Seq<char>> {
        match *self {
            Number::Int(i) => Number::Int(i),
            Number::Float(s) => Number::Float(s@),
        }
    }
}

impl Number<String> {
    /// A number equal to this one.
    pub fn duplicate(&self) -> (out: Self)
        ensures
            out@ == self@,
    {
        match self {
            Number::Int(i) => Number::Int(*i),
            Number::Float(s) => Number::Float(s.clone()),
        }
    }
}

/// A copy of an optional number.
pub fn copy_opt_number(number: &Option<Number<String>>) -> (out: Option<Number<String>>)
    ensures
        crate::views::opt_view(out) == crate::views::opt_view(*number),
{
    match number {
        Some(n) => Some(n.duplicate()),
        None => None,
    }
}

} // verus!
