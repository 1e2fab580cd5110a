//! Literal values of the document: numbers, texts and truth values.

use vstd::prelude::*;

verus! {

/// A number of the document format.  The library never computes with one: numbers
/// pass through it untouched.
#[verifier::external_type_specification]
#[verifier::external_body]
pub struct ExNumber(rs_sb3::value::Number);

/// The document number that stands for a whole number.
pub uninterp spec fn whole_number(n: int) -> rs_sb3::value::Number;

/// Calls `From<i64> for rs_sb3::value::Number`, which wraps the integer in the
/// variant for whole numbers.  The contract gives that number its name.
#[verifier::external_body]
pub(crate) fn number_from_int(n: i64) -> (number: rs_sb3::value::Number)
    ensures
        number == whole_number(n as int),
{
    rs_sb3::value::Number::from(n)
}

/// `rs_sb3::value::Number` is `Copy`: the `clone` that it derives returns the
/// number itself.
pub assume_specification[ <rs_sb3::value::Number as Clone>::clone ](
    number: &rs_sb3::value::Number,
) -> (copy: rs_sb3::value::Number)
    ensures
        copy == *number,
;

/// A number or a text.
#[derive(Debug, Clone, PartialEq)]
pub enum Value {
    Number(rs_sb3::value::Number),
    Text(String),
}

/// The model of a [`Value`].
pub enum ValueView {
    Number(rs_sb3::value::Number),
    Text(Seq<char>),
}

impl View for Value {
    type V = ValueView;

    open spec fn view(&self) -> ValueView {
        match self {
            Value::Number(n) => ValueView::Number(*n),
            Value::Text(t) => ValueView::Text(t@),
        }
    }
}

impl Value {
    /// A copy with the same view.
    pub fn duplicate(&self) -> (copy: Value)
        ensures
            copy@ == self@,
    {
        match self {
            Value::Number(n) => Value::Number(*n),
            Value::Text(t) => Value::Text(t.clone()),
        }
    }
}

/// A number, a text or a truth value.
#[derive(Debug, Clone, PartialEq)]
pub enum ValueWithBool {
    Number(rs_sb3::value::Number),
    Text(String),
    Bool(bool),
}

/// The model of a [`ValueWithBool`].
pub enum ValueWithBoolView {
    Number(rs_sb3::value::Number),
    Text(Seq<char>),
    Bool(bool),
}

impl View for ValueWithBool {
    type V = ValueWithBoolView;

    open spec fn view(&self) -> ValueWithBoolView {
        match self {
            ValueWithBool::Number(n) => ValueWithBoolView::Number(*n),
            ValueWithBool::Text(t) => ValueWithBoolView::Text(t@),
            ValueWithBool::Bool(b) => ValueWithBoolView::Bool(*b),
        }
    }
}

impl ValueWithBool {
    /// A copy with the same view.
    pub fn duplicate(&self) -> (copy: ValueWithBool)
        ensures
            copy@ == self@,
    {
        match self {
            ValueWithBool::Number(n) => ValueWithBool::Number(*n),
            ValueWithBool::Text(t) => ValueWithBool::Text(t.clone()),
            ValueWithBool::Bool(b) => ValueWithBool::Bool(*b),
        }
    }
}

} // verus!
