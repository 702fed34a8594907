//! Arithmetic operator traits with overflow-free contracts, implemented for
//! `isize`.
//!
//! Every operation states when it is defined (the mathematical result fits the
//! type, and the divisor is not zero) and what it returns. Division rounds
//! toward zero, as the machine instruction does.

use vstd::prelude::*;

verus! {

/// Types whose size is known when the program is built.
pub trait Sized {
}

/// Types whose values can be duplicated.
pub trait Clone: Sized {
}

/// Types whose values are duplicated by copying their bits.
pub trait Copy: Clone {
}

impl Sized for isize {
}

impl Clone for isize {
}

impl Copy for isize {
}

/// The quotient of `a` by `b`, rounded toward zero.
pub open spec fn truncated_quotient(a: int, b: int) -> int
    recommends
        b != 0,
{
    if a >= 0 {
        a / b
    } else {
        -((-a) / b)
    }
}

/// The quotient rounded toward zero is never further from zero than the
/// dividend.
pub proof fn lemma_truncated_quotient_bounds(a: int, b: int)
    requires
        b != 0,
    ensures
        a >= 0 ==> -a <= truncated_quotient(a, b) <= a,
        a < 0 ==> a <= truncated_quotient(a, b) <= -a,
        a < 0 && b != -1 ==> truncated_quotient(a, b) < -a,
{
    if a >= 0 {
        assert(-a <= a / b <= a) by (nonlinear_arith)
            requires
                a >= 0,
                b != 0,
        ;
    } else {
        let m = -a;
        assert(-m <= m / b <= m) by (nonlinear_arith)
            requires
                m > 0,
                b != 0,
        ;
        assert(b != -1 ==> -(m / b) < m) by (nonlinear_arith)
            requires
                m > 0,
                b != 0,
        ;
    }
}

/// Addition, written `+`.
pub trait Add<Rhs = Self> {
    type Output;

    /// Whether the sum can be represented.
    spec fn can_add(self, rhs: Rhs) -> bool;

    /// The sum.
    spec fn sum(self, rhs: Rhs) -> Self::Output;

    fn add(self, rhs: Rhs) -> (r: Self::Output)
        requires
            self.can_add(rhs),
        ensures
            r == self.sum(rhs),
    ;
}

impl Add for isize {
    type Output = isize;

    open spec fn can_add(self, rhs: isize) -> bool {
        isize::MIN <= self + rhs <= isize::MAX
    }

    open spec fn sum(self, rhs: isize) -> isize {
        (self + rhs) as isize
    }

    fn add(self, rhs: isize) -> (r: isize) {
        self + rhs
    }
}

/// Subtraction, written `-`.
pub trait Sub<Rhs = Self> {
    type Output;

    /// Whether the difference can be represented.
    spec fn can_sub(self, rhs: Rhs) -> bool;

    /// The difference.
    spec fn difference(self, rhs: Rhs) -> Self::Output;

    fn sub(self, rhs: Rhs) -> (r: Self::Output)
        requires
            self.can_sub(rhs),
        ensures
            r == self.difference(rhs),
    ;
}

impl Sub for isize {
    type Output = isize;

    open spec fn can_sub(self, rhs: isize) -> bool {
        isize::MIN <= self - rhs <= isize::MAX
    }

    open spec fn difference(self, rhs: isize) -> isize {
        (self - rhs) as isize
    }

    fn sub(self, rhs: isize) -> (r: isize) {
        self - rhs
    }
}

/// Multiplication, written `*`.
pub trait Mul<Rhs = Self> {
    type Output;

    /// Whether the product can be represented.
    spec fn can_mul(self, rhs: Rhs) -> bool;

    /// The product.
    spec fn product(self, rhs: Rhs) -> Self::Output;

    fn mul(self, rhs: Rhs) -> (r: Self::Output)
        requires
            self.can_mul(rhs),
        ensures
            r == self.product(rhs),
    ;
}

impl Mul for isize {
    type Output = isize;

    open spec fn can_mul(self, rhs: isize) -> bool {
        isize::MIN <= self * rhs <= isize::MAX
    }

    open spec fn product(self, rhs: isize) -> isize {
        (self * rhs) as isize
    }

    fn mul(self, rhs: isize) -> (r: isize) {
        self * rhs
    }
}

/// Division, written `/`.
pub trait Div<Rhs = Self> {
    type Output;

    /// Whether the quotient exists and can be represented.
    spec fn can_div(self, rhs: Rhs) -> bool;

    /// The quotient.
    spec fn quotient(self, rhs: Rhs) -> Self::Output;

    fn div(self, rhs: Rhs) -> (r: Self::Output)
        requires
            self.can_div(rhs),
        ensures
            r == self.quotient(rhs),
    ;
}

impl Div for isize {
    type Output = isize;

    open spec fn can_div(self, rhs: isize) -> bool {
        rhs != 0 && !(self == isize::MIN && rhs == -1)
    }

    open spec fn quotient(self, rhs: isize) -> isize {
        truncated_quotient(self as int, rhs as int) as isize
    }

    fn div(self, rhs: isize) -> (r: isize)
        ensures
            r == truncated_quotient(self as int, rhs as int),
    {
        proof {
            lemma_truncated_quotient_bounds(self as int, rhs as int);
        }
        self / rhs
    }
}

/// Addition in place, written `+=`.
pub trait AddAssign<Rhs = Self>: core::marker::Sized {
    /// Whether the sum can be represented.
    spec fn can_add_assign(self, rhs: Rhs) -> bool;

    /// The value that the left side holds afterwards.
    spec fn add_assigned(self, rhs: Rhs) -> Self;

    fn add_assign(&mut self, rhs: Rhs)
        requires
            old(self).can_add_assign(rhs),
        ensures
            *final(self) == old(self).add_assigned(rhs),
    ;
}

impl AddAssign for isize {
    open spec fn can_add_assign(self, rhs: isize) -> bool {
        isize::MIN <= self + rhs <= isize::MAX
    }

    open spec fn add_assigned(self, rhs: isize) -> isize {
        (self + rhs) as isize
    }

    fn add_assign(&mut self, rhs: isize) {
        *self += rhs
    }
}

/// Subtraction in place, written `-=`.
pub trait SubAssign<Rhs = Self>: core::marker::Sized {
    /// Whether the difference can be represented.
    spec fn can_sub_assign(self, rhs: Rhs) -> bool;

    /// The value that the left side holds afterwards.
    spec fn sub_assigned(self, rhs: Rhs) -> Self;

    fn sub_assign(&mut self, rhs: Rhs)
        requires
            old(self).can_sub_assign(rhs),
        ensures
            *final(self) == old(self).sub_assigned(rhs),
    ;
}

impl SubAssign for isize {
    open spec fn can_sub_assign(self, rhs: isize) -> bool {
        isize::MIN <= self - rhs <= isize::MAX
    }

    open spec fn sub_assigned(self, rhs: isize) -> isize {
        (self - rhs) as isize
    }

    fn sub_assign(&mut self, rhs: isize) {
        *self -= rhs
    }
}

/// Multiplication in place, written `*=`.
pub trait MulAssign<Rhs = Self>: core::marker::Sized {
    /// Whether the product can be represented.
    spec fn can_mul_assign(self, rhs: Rhs) -> bool;

    /// The value that the left side holds afterwards.
    spec fn mul_assigned(self, rhs: Rhs) -> Self;

    fn mul_assign(&mut self, rhs: Rhs)
        requires
            old(self).can_mul_assign(rhs),
        ensures
            *final(self) == old(self).mul_assigned(rhs),
    ;
}

impl MulAssign for isize {
    open spec fn can_mul_assign(self, rhs: isize) -> bool {
        isize::MIN <= self * rhs <= isize::MAX
    }

    open spec fn mul_assigned(self, rhs: isize) -> isize {
        (self * rhs) as isize
    }

    fn mul_assign(&mut self, rhs: isize) {
        *self *= rhs
    }
}

/// Division in place, written `/=`.
pub trait DivAssign<Rhs = Self>: core::marker::Sized {
    /// Whether the quotient exists and can be represented.
    spec fn can_div_assign(self, rhs: Rhs) -> bool;

    /// The value that the left side holds afterwards.
    spec fn div_assigned(self, rhs: Rhs) -> Self;

    fn div_assign(&mut self, rhs: Rhs)
        requires
            old(self).can_div_assign(rhs),
        ensures
            *final(self) == old(self).div_assigned(rhs),
    ;
}

impl DivAssign for isize {
    open spec fn can_div_assign(self, rhs: isize) -> bool {
        rhs != 0 && !(self == isize::MIN && rhs == -1)
    }

    open spec fn div_assigned(self, rhs: isize) -> isize {
        truncated_quotient(self as int, rhs as int) as isize
    }

    fn div_assign(&mut self, rhs: isize) {
        proof {
            lemma_truncated_quotient_bounds(*self as int, rhs as int);
        }
        *self = *self / rhs
    }
}

/// Runs each in-place operator once, starting from zero, and hands the result
/// to [`main`]: `0 + 3` is 3, times 4 is 12, divided by 6 is 2, minus 1 is 1.
pub fn test() -> (r: isize)
    ensures
        r == 2,
{
    let mut i: isize = 0;
    i.add_assign(3);
    i.mul_assign(4);
    i.div_assign(6);
    i.sub_assign(1);
    main(i)
}

/// The value of `((i + 3) * 2 - 2) / 3` as a mathematical integer.
pub open spec fn main_value(i: int) -> int {
    truncated_quotient((i + 3) * 2 - 2, 3)
}

/// Computes `((i + 3) * 2 - 2) / 3` through the operator traits.
pub fn main(i: isize) -> (r: isize)
    requires
        isize::MIN <= (i + 3) * 2 - 2,
        (i + 3) * 2 <= isize::MAX,
    ensures
        r == main_value(i as int),
{
    proof {
        lemma_truncated_quotient_bounds((i + 3) * 2 - 2, 3);
    }
    i.add(3).mul(2).sub(2).div(3)
}

} // verus!
