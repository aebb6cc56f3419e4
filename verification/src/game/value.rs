//! The values that the machine works on.

use std::cmp::Ordering;
use vstd::prelude::*;
use vstd::std_specs::cmp::{PartialEqSpecImpl, PartialOrdSpecImpl};
use vstd::std_specs::convert::FromSpecImpl;
use vstd::std_specs::ops::{AddSpecImpl, SubSpecImpl};

verus! {

/// What a hand, a memory cell or a tape position can hold: a number or a letter.
#[derive(Debug, Clone, Copy, PartialEq, Eq, Structural)]
pub enum Value {
    Int(i32),
    Char(char),
}

impl Value {
    /// Sum of two values: defined for two numbers only, and wrapping at the
    /// bounds of `i32`.
    pub open spec fn spec_add(self, rhs: Value) -> Option<Value> {
        match (self, rhs) {
            (Value::Int(lhs), Value::Int(rhs)) => Some(Value::Int(lhs.wrapping_add(rhs))),
            _ => None,
        }
    }

    /// Difference of two values: of two numbers, wrapping at the bounds of
    /// `i32`, or of two letters, as the distance between their code points.
    pub open spec fn spec_sub(self, rhs: Value) -> Option<Value> {
        match (self, rhs) {
            (Value::Int(lhs), Value::Int(rhs)) => Some(Value::Int(lhs.wrapping_sub(rhs))),
            (Value::Char(lhs), Value::Char(rhs)) => Some(Value::Int((lhs as int - rhs as int) as i32)),
            _ => None,
        }
    }

    /// The value is the number zero.
    pub open spec fn is_zero(self) -> bool {
        self == Value::Int(0)
    }

    /// The value is a number below zero.
    pub open spec fn is_negative(self) -> bool {
        self matches Value::Int(v) && v < 0
    }

    /// The sum of two values, where it is defined.
    pub fn add(self, rhs: Self) -> (r: Option<Self>)
        ensures
            r == self.spec_add(rhs),
            r is Some <==> self is Int && rhs is Int,
    {
        match (self, rhs) {
            (Value::Int(lhs), Value::Int(rhs)) => Some(Value::Int(lhs.wrapping_add(rhs))),
            _ => None,
        }
    }

    /// The difference of two values, where it is defined.
    pub fn sub(self, rhs: Self) -> (r: Option<Self>)
        ensures
            r == self.spec_sub(rhs),
            r is Some <==> (self is Int <==> rhs is Int),
            r matches Some(v) ==> v is Int,
    {
        match (self, rhs) {
            (Value::Int(lhs), Value::Int(rhs)) => Some(Value::Int(lhs.wrapping_sub(rhs))),
            (Value::Char(lhs), Value::Char(rhs)) => Some(Value::Int(lhs as i32 - rhs as i32)),
            _ => None,
        }
    }
}

/// Addition and subtraction are total on numbers; on two letters only the
/// subtraction is defined, and gives a number; on a number and a letter, in
/// either order, both are undefined.
pub proof fn lemma_arithmetic_totality(a: Value, b: Value)
    ensures
        a is Int && b is Int ==> a.spec_add(b) is Some && a.spec_sub(b) is Some,
        a is Char && b is Char ==> a.spec_add(b) is None && (a.spec_sub(b) matches Some(d) && d is Int),
        (a is Int) != (b is Int) ==> a.spec_add(b) is None && a.spec_sub(b) is None,
{
}

impl PartialEq<i32> for Value {
    fn eq(&self, rhs: &i32) -> (r: bool) {
        match self {
            Value::Int(lhs) => *lhs == *rhs,
            Value::Char(_) => false,
        }
    }
}

impl PartialEqSpecImpl<i32> for Value {
    open spec fn obeys_eq_spec() -> bool {
        true
    }

    open spec fn eq_spec(&self, rhs: &i32) -> bool {
        *self == Value::Int(*rhs)
    }
}

impl PartialOrd<i32> for Value {
    fn partial_cmp(&self, rhs: &i32) -> (r: Option<Ordering>) {
        match self {
            Value::Int(lhs) => if *lhs < *rhs {
                Some(Ordering::Less)
            } else if *lhs > *rhs {
                Some(Ordering::Greater)
            } else {
                Some(Ordering::Equal)
            },
            Value::Char(_) => None,
        }
    }
}

impl PartialOrdSpecImpl<i32> for Value {
    open spec fn obeys_partial_cmp_spec() -> bool {
        true
    }

    open spec fn partial_cmp_spec(&self, rhs: &i32) -> Option<Ordering> {
        match self {
            Value::Int(lhs) => if *lhs < *rhs {
                Some(Ordering::Less)
            } else if *lhs > *rhs {
                Some(Ordering::Greater)
            } else {
                Some(Ordering::Equal)
            },
            Value::Char(_) => None,
        }
    }
}

impl std::ops::Add for Value {
    type Output = Value;

    fn add(self, rhs: Self) -> (r: Value) {
        match Value::add(self, rhs) {
            Some(sum) => sum,
            None => vstd::pervasive::unreached(),
        }
    }
}

impl AddSpecImpl for Value {
    open spec fn obeys_add_spec() -> bool {
        true
    }

    open spec fn add_req(self, rhs: Value) -> bool {
        self.spec_add(rhs) is Some
    }

    open spec fn add_spec(self, rhs: Value) -> Value {
        self.spec_add(rhs)->0
    }
}

impl std::ops::Sub for Value {
    type Output = Value;

    fn sub(self, rhs: Self) -> (r: Value) {
        match Value::sub(self, rhs) {
            Some(difference) => difference,
            None => vstd::pervasive::unreached(),
        }
    }
}

impl SubSpecImpl for Value {
    open spec fn obeys_sub_spec() -> bool {
        true
    }

    open spec fn sub_req(self, rhs: Value) -> bool {
        self.spec_sub(rhs) is Some
    }

    open spec fn sub_spec(self, rhs: Value) -> Value {
        self.spec_sub(rhs)->0
    }
}

/// The decimal digit for a number below ten.
pub open spec fn digit(d: nat) -> char {
    if d == 0 {
        '0'
    } else if d == 1 {
        '1'
    } else if d == 2 {
        '2'
    } else if d == 3 {
        '3'
    } else if d == 4 {
        '4'
    } else if d == 5 {
        '5'
    } else if d == 6 {
        '6'
    } else if d == 7 {
        '7'
    } else if d == 8 {
        '8'
    } else {
        '9'
    }
}

/// A natural number written in decimal digits, without leading zeros.
pub open spec fn digits_of(n: nat) -> Seq<char>
    decreases n,
{
    if n < 10 {
        seq![digit(n)]
    } else {
        digits_of(n / 10).push(digit(n % 10))
    }
}

/// A number written in decimal digits, behind a minus sign if it is below zero.
pub open spec fn number_text(i: int) -> Seq<char> {
    if i < 0 {
        seq!['-'] + digits_of((-i) as nat)
    } else {
        digits_of(i as nat)
    }
}

impl Value {
    /// The value written as text: a number in decimal digits, a letter as itself.
    pub open spec fn text(self) -> Seq<char> {
        match self {
            Value::Int(val) => number_text(val as int),
            Value::Char(val) => seq![val],
        }
    }
}

fn digit_char(d: u32) -> (c: char)
    requires
        d < 10,
    ensures
        c == digit(d as nat),
{
    if d == 0 {
        '0'
    } else if d == 1 {
        '1'
    } else if d == 2 {
        '2'
    } else if d == 3 {
        '3'
    } else if d == 4 {
        '4'
    } else if d == 5 {
        '5'
    } else if d == 6 {
        '6'
    } else if d == 7 {
        '7'
    } else if d == 8 {
        '8'
    } else {
        '9'
    }
}

impl From<Value> for String {
    /// The value written as text.
    fn from(value: Value) -> (text: String)
        ensures
            text@ == value.text(),
    {
        let mut text = String::new();
        match value {
            Value::Char(val) => {
                text.push(val);
            },
            Value::Int(val) => {
                let magnitude: u32 = if val < 0 {
                    text.push('-');
                    (-(val as i64)) as u32
                } else {
                    val as u32
                };
                // The digits from the last to the first.
                let mut digits: Vec<char> = Vec::new();
                let mut rest: u32 = magnitude;
                digits.push(digit_char(rest % 10));
                rest = rest / 10;
                while rest > 0
                    invariant
                        digits@.len() > 0,
                        digits_of(magnitude as nat) == if rest > 0 {
                            digits_of(rest as nat) + digits@.reverse()
                        } else {
                            digits@.reverse()
                        },
                    decreases rest,
                {
                    let ghost before = digits@;
                    digits.push(digit_char(rest % 10));
                    assert(digits_of(rest as nat) + before.reverse() == if rest / 10 > 0 {
                        digits_of((rest / 10) as nat) + digits@.reverse()
                    } else {
                        digits@.reverse()
                    });
                    rest = rest / 10;
                }
                let ghost sign = text@;
                let mut i: usize = digits.len();
                while i > 0
                    invariant
                        i <= digits.len(),
                        text@ == sign + digits@.reverse().take(digits.len() - i),
                    decreases i,
                {
                    i -= 1;
                    text.push(digits[i]);
                }
            },
        }
        text
    }
}

impl FromSpecImpl<Value> for String {
    /// The conversion is stated over the characters of the text, in the
    /// contract of `from`.
    open spec fn obeys_from_spec() -> bool {
        false
    }

    open spec fn from_spec(value: Value) -> String {
        arbitrary()
    }
}

} // verus!
