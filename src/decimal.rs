use vstd::prelude::*;

use num_bigfloat::BigFloat;

verus! {

/// A finite high-precision number, held as the parts that `num_bigfloat`
/// gives for it: forty decimal digits in ten groups of four (least
/// significant group first), the number of digits in use, the sign
/// (`1` or `-1`) and the decimal exponent.
///
/// Values of this type come from the number library only; `None` in an
/// `Option<Decimal>` stands for a result that is not finite (an infinity or
/// a NaN).
#[derive(Clone, Copy, Debug)]
pub struct Decimal {
    mantissa: [i16; 10],
    len: i16,
    sign: i8,
    exp: i8,
}

/// The sum that `BigFloat::add` gives, rounded to the library's precision.
pub uninterp spec fn sum_of(a: Decimal, b: Decimal) -> Option<Decimal>;

/// The difference that `BigFloat::sub` gives.
pub uninterp spec fn difference_of(a: Decimal, b: Decimal) -> Option<Decimal>;

/// The product that `BigFloat::mul` gives.
pub uninterp spec fn product_of(a: Decimal, b: Decimal) -> Option<Decimal>;

/// The quotient that `BigFloat::div` gives.
pub uninterp spec fn quotient_of(a: Decimal, b: Decimal) -> Option<Decimal>;

/// The power that `BigFloat::pow` gives.
pub uninterp spec fn power_of(a: Decimal, b: Decimal) -> Option<Decimal>;

/// The number that `BigFloat::from_i64` gives for an integer.
pub uninterp spec fn integer_of(i: i64) -> Option<Decimal>;

/// The number that `BigFloat::parse` reads from a decimal text.
pub uninterp spec fn parsed_of(s: Seq<char>) -> Option<Decimal>;

/// Relies on `BigFloat::parse` and `BigFloat::to_raw_parts`; texts that do
/// not parse and infinities or NaN give `None`.
#[verifier::external_body]
fn raw_parse(s: &str) -> (r: Option<Decimal>)
    ensures
        r == parsed_of(s@),
{
    BigFloat::parse(s).and_then(|b| b.to_raw_parts()).map(Decimal::from_raw)
}

/// Relies on `BigFloat::add` and the raw-parts conversions of `BigFloat`.
#[verifier::external_body]
fn raw_add(a: &Decimal, b: &Decimal) -> (r: Option<Decimal>)
    ensures
        r == sum_of(*a, *b),
{
    let x = BigFloat::from_raw_parts(a.mantissa, a.len, a.sign, a.exp);
    let y = BigFloat::from_raw_parts(b.mantissa, b.len, b.sign, b.exp);
    x.add(&y).to_raw_parts().map(Decimal::from_raw)
}

/// Relies on `BigFloat::sub` and the raw-parts conversions of `BigFloat`.
#[verifier::external_body]
fn raw_sub(a: &Decimal, b: &Decimal) -> (r: Option<Decimal>)
    ensures
        r == difference_of(*a, *b),
{
    let x = BigFloat::from_raw_parts(a.mantissa, a.len, a.sign, a.exp);
    let y = BigFloat::from_raw_parts(b.mantissa, b.len, b.sign, b.exp);
    x.sub(&y).to_raw_parts().map(Decimal::from_raw)
}

/// Relies on `BigFloat::mul` and the raw-parts conversions of `BigFloat`.
#[verifier::external_body]
fn raw_mul(a: &Decimal, b: &Decimal) -> (r: Option<Decimal>)
    ensures
        r == product_of(*a, *b),
{
    let x = BigFloat::from_raw_parts(a.mantissa, a.len, a.sign, a.exp);
    let y = BigFloat::from_raw_parts(b.mantissa, b.len, b.sign, b.exp);
    x.mul(&y).to_raw_parts().map(Decimal::from_raw)
}

/// Relies on `BigFloat::div` and the raw-parts conversions of `BigFloat`.
#[verifier::external_body]
fn raw_div(a: &Decimal, b: &Decimal) -> (r: Option<Decimal>)
    ensures
        r == quotient_of(*a, *b),
{
    let x = BigFloat::from_raw_parts(a.mantissa, a.len, a.sign, a.exp);
    let y = BigFloat::from_raw_parts(b.mantissa, b.len, b.sign, b.exp);
    x.div(&y).to_raw_parts().map(Decimal::from_raw)
}

/// Relies on `BigFloat::pow` and the raw-parts conversions of `BigFloat`.
#[verifier::external_body]
fn raw_pow(a: &Decimal, b: &Decimal) -> (r: Option<Decimal>)
    ensures
        r == power_of(*a, *b),
{
    let x = BigFloat::from_raw_parts(a.mantissa, a.len, a.sign, a.exp);
    let y = BigFloat::from_raw_parts(b.mantissa, b.len, b.sign, b.exp);
    x.pow(&y).to_raw_parts().map(Decimal::from_raw)
}

/// Relies on `BigFloat::from_i64` and `BigFloat::to_raw_parts`.
#[verifier::external_body]
fn raw_from_i64(i: i64) -> (r: Option<Decimal>)
    ensures
        r == integer_of(i),
{
    BigFloat::from_i64(i).to_raw_parts().map(Decimal::from_raw)
}

/// Sum of two numbers, not finite when either operand is not.
pub open spec fn plus(a: Option<Decimal>, b: Option<Decimal>) -> Option<Decimal> {
    match (a, b) {
        (Some(x), Some(y)) => sum_of(x, y),
        _ => None,
    }
}

/// Difference of two numbers, not finite when either operand is not.
pub open spec fn minus(a: Option<Decimal>, b: Option<Decimal>) -> Option<Decimal> {
    match (a, b) {
        (Some(x), Some(y)) => difference_of(x, y),
        _ => None,
    }
}

/// Product of two numbers, not finite when either operand is not.
pub open spec fn times(a: Option<Decimal>, b: Option<Decimal>) -> Option<Decimal> {
    match (a, b) {
        (Some(x), Some(y)) => product_of(x, y),
        _ => None,
    }
}

/// Quotient of two numbers, not finite when either operand is not.
pub open spec fn over(a: Option<Decimal>, b: Option<Decimal>) -> Option<Decimal> {
    match (a, b) {
        (Some(x), Some(y)) => quotient_of(x, y),
        _ => None,
    }
}

/// Power of two numbers, not finite when either operand is not.
pub open spec fn power(a: Option<Decimal>, b: Option<Decimal>) -> Option<Decimal> {
    match (a, b) {
        (Some(x), Some(y)) => power_of(x, y),
        _ => None,
    }
}

/// The quotient `n / d` of two integers.
pub open spec fn ratio(n: i64, d: i64) -> Option<Decimal> {
    over(integer_of(n), integer_of(d))
}

/// A number is positive when its sign is `1` and a digit group is not zero.
pub closed spec fn positive(x: Decimal) -> bool {
    x.sign == 1 && exists|i: int| 0 <= i < 10 && x.mantissa[i] != 0
}

impl Decimal {
    /// The number with the given raw parts, as `BigFloat::to_raw_parts`
    /// hands them out.
    fn from_raw(p: ([i16; 10], i16, i8, i8)) -> (r: Decimal)
        ensures
            r.parts() == p,
    {
        Decimal { mantissa: p.0, len: p.1, sign: p.2, exp: p.3 }
    }

    /// Zero, as the number library writes it.
    pub closed spec fn spec_zero() -> Decimal {
        Decimal { mantissa: [0i16, 0, 0, 0, 0, 0, 0, 0, 0, 0], len: 0, sign: 1, exp: 0 }
    }

    pub fn zero() -> (r: Decimal)
        ensures
            r == Decimal::spec_zero(),
    {
        Decimal { mantissa: [0i16, 0, 0, 0, 0, 0, 0, 0, 0, 0], len: 0, sign: 1, exp: 0 }
    }

    /// Reads a number written in decimal, such as `-0.75` or `1.5e-30`;
    /// `None` for a text that is not a finite number.
    pub fn parse(s: &str) -> (r: Option<Decimal>)
        ensures
            r == parsed_of(s@),
    {
        raw_parse(s)
    }

    /// The raw parts: mantissa groups, digit count, sign and exponent.
    pub closed spec fn parts(self) -> ([i16; 10], i16, i8, i8) {
        (self.mantissa, self.len, self.sign, self.exp)
    }

    pub fn to_parts(&self) -> (r: ([i16; 10], i16, i8, i8))
        ensures
            r == self.parts(),
    {
        (self.mantissa, self.len, self.sign, self.exp)
    }

    /// Whether the number is greater than zero.
    pub fn is_positive(&self) -> (r: bool)
        ensures
            r == positive(*self),
    {
        if self.sign != 1 {
            return false;
        }
        let mut i: usize = 0;
        while i < 10
            invariant
                0 <= i <= 10,
                self.sign == 1,
                forall|j: int| 0 <= j < i ==> self.mantissa[j] == 0,
            decreases 10 - i,
        {
            if self.mantissa[i] != 0 {
                return true;
            }
            i = i + 1;
        }
        false
    }
}

/// Adds two numbers; not finite when either operand is not.
pub fn add_num(a: &Option<Decimal>, b: &Option<Decimal>) -> (r: Option<Decimal>)
    ensures
        r == plus(*a, *b),
{
    match (a, b) {
        (Some(x), Some(y)) => raw_add(x, y),
        _ => None,
    }
}

/// Subtracts two numbers; not finite when either operand is not.
pub fn sub_num(a: &Option<Decimal>, b: &Option<Decimal>) -> (r: Option<Decimal>)
    ensures
        r == minus(*a, *b),
{
    match (a, b) {
        (Some(x), Some(y)) => raw_sub(x, y),
        _ => None,
    }
}

/// Multiplies two numbers; not finite when either operand is not.
pub fn mul_num(a: &Option<Decimal>, b: &Option<Decimal>) -> (r: Option<Decimal>)
    ensures
        r == times(*a, *b),
{
    match (a, b) {
        (Some(x), Some(y)) => raw_mul(x, y),
        _ => None,
    }
}

/// Divides two numbers; not finite when either operand is not.
pub fn div_num(a: &Option<Decimal>, b: &Option<Decimal>) -> (r: Option<Decimal>)
    ensures
        r == over(*a, *b),
{
    match (a, b) {
        (Some(x), Some(y)) => raw_div(x, y),
        _ => None,
    }
}

/// Raises a number to a power; not finite when either operand is not.
pub fn pow_num(a: &Option<Decimal>, b: &Option<Decimal>) -> (r: Option<Decimal>)
    ensures
        r == power(*a, *b),
{
    match (a, b) {
        (Some(x), Some(y)) => raw_pow(x, y),
        _ => None,
    }
}

/// The number for an integer.
pub fn int_num(i: i64) -> (r: Option<Decimal>)
    ensures
        r == integer_of(i),
{
    raw_from_i64(i)
}

/// The number `n / d`.
pub fn ratio_num(n: i64, d: i64) -> (r: Option<Decimal>)
    ensures
        r == ratio(n, d),
{
    div_num(&int_num(n), &int_num(d))
}

} // verus!
