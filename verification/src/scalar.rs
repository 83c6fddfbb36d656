use vstd::prelude::*;
use vstd::string::StringExecFns;

verus! {

/// Integer quotient rounded toward zero, for a non-zero divisor.
pub open spec fn trunc_div(a: int, b: int) -> int {
    if a >= 0 {
        if b > 0 {
            a / b
        } else {
            -(a / (-b))
        }
    } else {
        if b > 0 {
            -((-a) / b)
        } else {
            (-a) / (-b)
        }
    }
}

/// `r` is the square root of `v`, rounded down.
pub open spec fn is_floor_sqrt(r: int, v: int) -> bool {
    0 <= r && r * r <= v < (r + 1) * (r + 1)
}

/// The square root of `v`, rounded down. Meaningful for `v >= 0` only.
pub open spec fn floor_sqrt(v: int) -> int {
    choose|r: int| is_floor_sqrt(r, v)
}

/// At most one integer is the rounded-down square root of `v`.
pub proof fn lemma_floor_sqrt_unique(r1: int, r2: int, v: int)
    requires
        is_floor_sqrt(r1, v),
        is_floor_sqrt(r2, v),
    ensures
        r1 == r2,
{
    if r1 < r2 {
        assert((r1 + 1) * (r1 + 1) <= r2 * r2) by (nonlinear_arith)
            requires
                0 <= r1,
                r1 + 1 <= r2,
        ;
    } else if r2 < r1 {
        assert((r2 + 1) * (r2 + 1) <= r1 * r1) by (nonlinear_arith)
            requires
                0 <= r2,
                r2 + 1 <= r1,
        ;
    }
}

/// Whoever exhibits a rounded-down square root of `v` has found `floor_sqrt(v)`.
pub proof fn lemma_floor_sqrt_is(r: int, v: int)
    requires
        is_floor_sqrt(r, v),
    ensures
        floor_sqrt(v) == r,
{
    lemma_floor_sqrt_unique(floor_sqrt(v), r, v);
}

/// Every non-negative integer has a rounded-down square root.
pub proof fn lemma_floor_sqrt_exists(v: int)
    requires
        v >= 0,
    ensures
        is_floor_sqrt(floor_sqrt(v), v),
    decreases v,
{
    if v == 0 {
        assert(is_floor_sqrt(0, 0));
    } else {
        lemma_floor_sqrt_exists(v - 1);
        let r = floor_sqrt(v - 1);
        if (r + 1) * (r + 1) <= v {
            assert(v < (r + 2) * (r + 2)) by (nonlinear_arith)
                requires
                    v - 1 < (r + 1) * (r + 1),
                    r >= 0,
            ;
            assert(is_floor_sqrt(r + 1, v));
        } else {
            assert(is_floor_sqrt(r, v));
        }
    }
}

/// Dividing by a negated divisor negates the quotient of a non-negative dividend.
proof fn lemma_div_negated_divisor(x: int, d: int)
    requires
        0 <= x,
        0 < d,
    ensures
        x / (-d) == -(x / d),
{
    assert(x / (-d) == -(x / d)) by (nonlinear_arith)
        requires
            0 <= x,
            0 < d,
    ;
}

/// A quotient rounded toward zero lies between zero and the dividend.
pub proof fn lemma_trunc_div_between(a: int, d: int)
    requires
        d > 0,
    ensures
        0 <= trunc_div(a, d) <= a || a <= trunc_div(a, d) <= 0,
{
    if a >= 0 {
        assert(0 <= a / d <= a) by (nonlinear_arith)
            requires
                a >= 0,
                d > 0,
        ;
    } else {
        assert(0 <= (-a) / d <= -a) by (nonlinear_arith)
            requires
                a < 0,
                d > 0,
        ;
    }
}

/// A dividend that is no larger than the divisor gives a quotient between -1 and 1.
pub proof fn lemma_trunc_div_small(c: int, l: int)
    requires
        0 < l,
        -l <= c <= l,
    ensures
        -1 <= trunc_div(c, l) <= 1,
{
    if c >= 0 {
        assert(c / l <= 1) by (nonlinear_arith)
            requires
                0 <= c <= l,
                0 < l,
        ;
        assert(0 <= c / l) by (nonlinear_arith)
            requires
                0 <= c,
                0 < l,
        ;
    } else {
        assert((-c) / l <= 1) by (nonlinear_arith)
            requires
                0 <= -c <= l,
                0 < l,
        ;
        assert(0 <= (-c) / l) by (nonlinear_arith)
            requires
                0 <= -c,
                0 < l,
        ;
    }
}

/// The character of the decimal digit `d`.
pub open spec fn digit_char(d: int) -> char {
    if d == 0 {
        '0'
    } else if d == 1 {
        '1'
    } else if d == 2 {
        '2'
    } else if d == 3 {
        '3'
    } else if d == 4 {
        '4'
    } else if d == 5 {
        '5'
    } else if d == 6 {
        '6'
    } else if d == 7 {
        '7'
    } else if d == 8 {
        '8'
    } else {
        '9'
    }
}

/// The decimal digits of `n`, without leading zeros.
pub open spec fn decimal_digits(n: nat) -> Seq<char>
    decreases n,
{
    if n < 10 {
        seq![digit_char(n as int)]
    } else {
        decimal_digits(n / 10).push(digit_char((n % 10) as int))
    }
}

/// The decimal text of `v`, with a minus sign in front if it is negative.
pub open spec fn decimal_text(v: int) -> Seq<char> {
    if v < 0 {
        seq!['-'] + decimal_digits((-v) as nat)
    } else {
        decimal_digits(v as nat)
    }
}

fn digit_str(d: u64) -> (r: &'static str)
    requires
        d < 10,
    ensures
        r@ == seq![digit_char(d as int)],
{
    proof {
        reveal_strlit("0");
        reveal_strlit("1");
        reveal_strlit("2");
        reveal_strlit("3");
        reveal_strlit("4");
        reveal_strlit("5");
        reveal_strlit("6");
        reveal_strlit("7");
        reveal_strlit("8");
        reveal_strlit("9");
    }
    let r = if d == 0 {
        "0"
    } else if d == 1 {
        "1"
    } else if d == 2 {
        "2"
    } else if d == 3 {
        "3"
    } else if d == 4 {
        "4"
    } else if d == 5 {
        "5"
    } else if d == 6 {
        "6"
    } else if d == 7 {
        "7"
    } else if d == 8 {
        "8"
    } else {
        "9"
    };
    assert(r@ =~= seq![digit_char(d as int)]);
    r
}

/// Writes `n` in decimal digits.
pub fn digits_to_string(n: u64) -> (r: String)
    ensures
        r@ == decimal_digits(n as nat),
    decreases n,
{
    if n < 10 {
        String::from_str(digit_str(n))
    } else {
        let mut s = digits_to_string(n / 10);
        s.append(digit_str(n % 10));
        s
    }
}

/// A signed machine integer that serves as a coordinate.
///
/// Every value stands for the mathematical integer `val()`. An operation asks
/// that its exact result `fits` the type and then returns exactly that result,
/// so nothing ever wraps around.
pub trait Scalar: Copy + Sized {
    /// The integer this value stands for.
    spec fn val(self) -> int;

    /// Whether the type can hold the integer `v`.
    spec fn fits(v: int) -> bool;

    /// The default tolerance of approximate equality.
    spec fn epsilon() -> int;

    /// Two values that stand for the same integer are the same value.
    proof fn lemma_val_injective(self, other: Self)
        requires
            self.val() == other.val(),
        ensures
            self == other,
    ;

    /// The type holds every integer between two that it holds, among them 0 and 1.
    proof fn lemma_fits(self, v: int)
        ensures
            Self::fits(self.val()),
            Self::fits(0),
            Self::fits(1),
            0 <= v <= self.val() || self.val() <= v <= 0 ==> Self::fits(v),
    ;

    fn zero() -> (r: Self)
        ensures
            r.val() == 0,
    ;

    fn one() -> (r: Self)
        ensures
            r.val() == 1,
    ;

    fn add(self, rhs: Self) -> (r: Self)
        requires
            Self::fits(self.val() + rhs.val()),
        ensures
            r.val() == self.val() + rhs.val(),
    ;

    fn sub(self, rhs: Self) -> (r: Self)
        requires
            Self::fits(self.val() - rhs.val()),
        ensures
            r.val() == self.val() - rhs.val(),
    ;

    fn mul(self, rhs: Self) -> (r: Self)
        requires
            Self::fits(self.val() * rhs.val()),
        ensures
            r.val() == self.val() * rhs.val(),
    ;

    /// Division rounds toward zero.
    fn div(self, rhs: Self) -> (r: Self)
        requires
            rhs.val() != 0,
            Self::fits(trunc_div(self.val(), rhs.val())),
        ensures
            r.val() == trunc_div(self.val(), rhs.val()),
    ;

    fn neg(self) -> (r: Self)
        requires
            Self::fits(-self.val()),
        ensures
            r.val() == -self.val(),
    ;

    fn abs(self) -> (r: Self)
        requires
            Self::fits(vstd::math::abs(self.val()) as int),
        ensures
            r.val() == vstd::math::abs(self.val()),
    ;

    fn lt(self, rhs: Self) -> (r: bool)
        ensures
            r == (self.val() < rhs.val()),
    ;

    fn is_zero(self) -> (r: bool)
        ensures
            r == (self.val() == 0),
    ;

    /// The square root, rounded down.
    fn sqrt(self) -> (r: Self)
        requires
            self.val() >= 0,
        ensures
            r.val() == floor_sqrt(self.val()),
    ;

    fn approx_epsilon() -> (r: Self)
        ensures
            r.val() == Self::epsilon(),
    ;

    /// Whether the two values differ by less than `eps`.
    fn approx_eq_eps(self, other: Self, eps: Self) -> (r: bool)
        ensures
            r == (vstd::math::abs(self.val() - other.val()) < eps.val()),
    ;

    /// The value in decimal digits.
    fn to_str(self) -> (r: String)
        ensures
            r@ == decimal_text(self.val()),
    ;
}

/// The largest `i64` whose square is still an `i64`.
pub const I64_SQRT_MAX: i64 = 3037000499;

impl Scalar for i64 {
    open spec fn val(self) -> int {
        self as int
    }

    open spec fn fits(v: int) -> bool {
        i64::MIN <= v <= i64::MAX
    }

    /// Two integers are approximately equal only when they are equal.
    open spec fn epsilon() -> int {
        1
    }

    proof fn lemma_val_injective(self, other: Self) {
    }

    proof fn lemma_fits(self, v: int) {
    }

    fn zero() -> (r: Self) {
        0
    }

    fn one() -> (r: Self) {
        1
    }

    fn add(self, rhs: Self) -> (r: Self) {
        self + rhs
    }

    fn sub(self, rhs: Self) -> (r: Self) {
        self - rhs
    }

    fn mul(self, rhs: Self) -> (r: Self) {
        self * rhs
    }

    fn div(self, rhs: Self) -> (r: Self) {
        proof {
            let a = self as int;
            let b = rhs as int;
            if b == -1 {
                assert(trunc_div(a, b) == -a);
            }
            if b < 0 {
                if a >= 0 {
                    lemma_div_negated_divisor(a, -b);
                } else {
                    lemma_div_negated_divisor(-a, -b);
                }
            }
        }
        self / rhs
    }

    fn neg(self) -> (r: Self) {
        -self
    }

    fn abs(self) -> (r: Self) {
        if self < 0 {
            -self
        } else {
            self
        }
    }

    fn lt(self, rhs: Self) -> (r: bool) {
        self < rhs
    }

    fn is_zero(self) -> (r: bool) {
        self == 0
    }

    fn sqrt(self) -> (r: Self) {
        let mut lo: i64 = 0;
        let mut hi: i64 = I64_SQRT_MAX + 1;
        assert(self < (I64_SQRT_MAX + 1) * (I64_SQRT_MAX + 1)) by (nonlinear_arith)
            requires
                self <= i64::MAX,
                I64_SQRT_MAX == 3037000499,
        ;
        while hi - lo > 1
            invariant
                0 <= lo < hi <= I64_SQRT_MAX + 1,
                lo * lo <= self < hi * hi,
            decreases hi - lo,
        {
            let mid: i64 = lo + (hi - lo) / 2;
            assert(mid * mid <= I64_SQRT_MAX * I64_SQRT_MAX) by (nonlinear_arith)
                requires
                    0 <= mid <= I64_SQRT_MAX,
            ;
            assert(I64_SQRT_MAX * I64_SQRT_MAX <= i64::MAX) by (nonlinear_arith)
                requires
                    I64_SQRT_MAX == 3037000499,
            ;
            if mid * mid <= self {
                lo = mid;
            } else {
                hi = mid;
            }
        }
        proof {
            lemma_floor_sqrt_is(lo as int, self as int);
        }
        lo
    }

    fn approx_epsilon() -> (r: Self) {
        1
    }

    fn approx_eq_eps(self, other: Self, eps: Self) -> (r: bool) {
        let d: i128 = self as i128 - other as i128;
        if d < 0 {
            -d < eps as i128
        } else {
            d < eps as i128
        }
    }

    fn to_str(self) -> (r: String) {
        if self < 0 {
            let magnitude: u64 = (-(self as i128)) as u64;
            let mut s = String::from_str("-");
            let digits = digits_to_string(magnitude);
            s.append(digits.as_str());
            proof {
                reveal_strlit("-");
                assert(s@ =~= seq!['-'] + decimal_digits((-self) as nat));
            }
            s
        } else {
            digits_to_string(self as u64)
        }
    }
}

impl Scalar for i32 {
    open spec fn val(self) -> int {
        self as int
    }

    open spec fn fits(v: int) -> bool {
        i32::MIN <= v <= i32::MAX
    }

    /// Two integers are approximately equal only when they are equal.
    open spec fn epsilon() -> int {
        1
    }

    proof fn lemma_val_injective(self, other: Self) {
    }

    proof fn lemma_fits(self, v: int) {
    }

    fn zero() -> (r: Self) {
        0
    }

    fn one() -> (r: Self) {
        1
    }

    fn add(self, rhs: Self) -> (r: Self) {
        self + rhs
    }

    fn sub(self, rhs: Self) -> (r: Self) {
        self - rhs
    }

    fn mul(self, rhs: Self) -> (r: Self) {
        self * rhs
    }

    fn div(self, rhs: Self) -> (r: Self) {
        proof {
            let a = self as int;
            let b = rhs as int;
            if b == -1 {
                assert(trunc_div(a, b) == -a);
            }
            if b < 0 {
                if a >= 0 {
                    lemma_div_negated_divisor(a, -b);
                } else {
                    lemma_div_negated_divisor(-a, -b);
                }
            }
        }
        self / rhs
    }

    fn neg(self) -> (r: Self) {
        -self
    }

    fn abs(self) -> (r: Self) {
        if self < 0 {
            -self
        } else {
            self
        }
    }

    fn lt(self, rhs: Self) -> (r: bool) {
        self < rhs
    }

    fn is_zero(self) -> (r: bool) {
        self == 0
    }

    fn sqrt(self) -> (r: Self) {
        let wide: i64 = self as i64;
        let root = wide.sqrt();
        proof {
            lemma_floor_sqrt_exists(self as int);
            let q = root as int;
            if q > 0 {
                assert(q <= q * q) by (nonlinear_arith)
                    requires
                        q >= 1,
                ;
            }
        }
        root as i32
    }

    fn approx_epsilon() -> (r: Self) {
        1
    }

    fn approx_eq_eps(self, other: Self, eps: Self) -> (r: bool) {
        let d: i64 = self as i64 - other as i64;
        if d < 0 {
            -d < eps as i64
        } else {
            d < eps as i64
        }
    }

    fn to_str(self) -> (r: String) {
        let wide: i64 = self as i64;
        wide.to_str()
    }
}

} // verus!
