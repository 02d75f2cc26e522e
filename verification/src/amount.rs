//! Decimal amounts as plain values.
//!
//! An [`Amount`] is a signed 96-bit mantissa and a scale between 0 and 28: the number
//! `mantissa / 10^scale`. Contracts speak of an amount by its view, the same number
//! counted in units of `10^-28`, which is an integer for every amount.
//!
//! Money is kept to four fractional digits. An amount with a scale of at most four whose
//! view is within [`in_range`] can be written with exactly four fractional digits, and
//! sums and differences of such amounts are exact as long as they stay in that range.
use crate::decimal::{decimal_eq, decimal_round_dp};
use vstd::prelude::*;

verus! {

/// The largest magnitude of a mantissa, `2^96 - 1`.
pub const MAX_MANTISSA: i128 = 79_228_162_514_264_337_593_543_950_335;

/// The largest scale.
pub const MAX_SCALE: u32 = 28;

/// The number of fractional digits that money is kept to.
pub const MONEY_SCALE: u32 = 4;

/// `10^n`.
pub open spec fn pow10(n: nat) -> int
    decreases n,
{
    if n == 0 {
        1
    } else {
        10 * pow10((n - 1) as nat)
    }
}

/// The integer nearest to `x / d`, the even one of the two where `x / d` lies halfway
/// between them. Meant for `d > 0`.
pub open spec fn round_half_even(x: int, d: int) -> int {
    let q = x / d;
    let r = x % d;
    if 2 * r < d || (2 * r == d && q % 2 == 0) {
        q
    } else {
        q + 1
    }
}

/// Whether `x`, counted in units of `10^-28`, is at most a full mantissa at `scale`.
pub open spec fn fits(x: int, scale: nat) -> bool {
    -MAX_MANTISSA * pow10((MAX_SCALE - scale) as nat) <= x <= MAX_MANTISSA * pow10(
        (MAX_SCALE - scale) as nat,
    )
}

/// Whether `x`, counted in units of `10^-28`, is at most a full mantissa at four
/// fractional digits: the range of money.
pub open spec fn in_range(x: int) -> bool {
    fits(x, MONEY_SCALE as nat)
}

/// A decimal number `mantissa / 10^scale`, with `|mantissa| < 2^96` and `scale <= 28`.
#[derive(Clone, Copy, Debug)]
pub struct Amount {
    pub(crate) mantissa: i128,
    pub(crate) scale: u32,
}

impl View for Amount {
    type V = int;

    /// The amount in units of `10^-28`.
    open spec fn view(&self) -> int {
        self.mantissa() * pow10((MAX_SCALE - self.scale()) as nat)
    }
}

impl Amount {
    /// The mantissa has at most 96 bits and the scale is at most 28. Every amount that
    /// a program holds is so.
    #[verifier::type_invariant]
    pub closed spec fn wf(self) -> bool {
        -MAX_MANTISSA <= self.mantissa <= MAX_MANTISSA && self.scale <= MAX_SCALE
    }

    pub closed spec fn spec_mantissa(&self) -> i128 {
        self.mantissa
    }

    pub closed spec fn spec_scale(&self) -> u32 {
        self.scale
    }

    /// The mantissa: the amount is `mantissa / 10^scale`.
    #[verifier::when_used_as_spec(spec_mantissa)]
    pub fn mantissa(&self) -> (m: i128)
        ensures
            m == self.mantissa(),
            -MAX_MANTISSA <= m <= MAX_MANTISSA,
    {
        proof {
            use_type_invariant(self);
        }
        self.mantissa
    }

    /// The scale: the number of fractional digits.
    #[verifier::when_used_as_spec(spec_scale)]
    pub fn scale(&self) -> (s: u32)
        ensures
            s == self.scale(),
            s <= MAX_SCALE,
    {
        proof {
            use_type_invariant(self);
        }
        self.scale
    }

    /// The amount `num / 10^scale`.
    pub fn new(num: i64, scale: u32) -> (a: Amount)
        requires
            scale <= MAX_SCALE,
        ensures
            a.mantissa() == num,
            a.scale() == scale,
    {
        Amount { mantissa: num as i128, scale }
    }

    /// The amount `mantissa / 10^scale`, where there is one: where the mantissa has at
    /// most 96 bits and the scale is at most 28.
    pub fn from_parts(mantissa: i128, scale: u32) -> (r: Option<Amount>)
        ensures
            r is Some <==> -MAX_MANTISSA <= mantissa <= MAX_MANTISSA && scale <= MAX_SCALE,
            r matches Some(a) ==> a.mantissa() == mantissa && a.scale() == scale,
    {
        if -MAX_MANTISSA <= mantissa && mantissa <= MAX_MANTISSA && scale <= MAX_SCALE {
            Some(Amount { mantissa, scale })
        } else {
            None
        }
    }

    /// Zero, with no fractional digits.
    pub fn zero() -> (a: Amount)
        ensures
            a.mantissa() == 0,
            a.scale() == 0,
            a@ == 0,
    {
        Amount { mantissa: 0, scale: 0 }
    }

    /// Whether the sum of two amounts is money: both have at most four fractional digits
    /// and the sum is in range.
    pub open spec fn spec_can_add(self, rhs: Amount) -> bool {
        self.scale() <= MONEY_SCALE && rhs.scale() <= MONEY_SCALE && in_range(self@ + rhs@)
    }

    /// Whether the difference of two amounts is money: both have at most four fractional
    /// digits and the difference is in range.
    pub open spec fn spec_can_sub(self, rhs: Amount) -> bool {
        self.scale() <= MONEY_SCALE && rhs.scale() <= MONEY_SCALE && in_range(self@ - rhs@)
    }

    /// The amount in ten-thousandths.
    fn ten_thousandths(self) -> (r: i128)
        requires
            self.scale() <= MONEY_SCALE,
        ensures
            r * pow10(24) == self@,
            -MAX_MANTISSA * 10000 <= r <= MAX_MANTISSA * 10000,
    {
        proof {
            use_type_invariant(self);
            lemma_pow10_values();
            lemma_pow10_adds((MONEY_SCALE - self.scale) as nat, 24);
        }
        let m = self.mantissa;
        let r: i128 = if self.scale == 0 {
            m * 10000
        } else if self.scale == 1 {
            m * 1000
        } else if self.scale == 2 {
            m * 100
        } else if self.scale == 3 {
            m * 10
        } else {
            m
        };
        proof {
            let f = pow10((MONEY_SCALE - self.scale) as nat);
            let p = pow10(24);
            assert(r == m * f);
            assert((m * f) * p == m * (f * p)) by (nonlinear_arith);
        }
        r
    }

    /// Decides [`Amount::spec_can_add`].
    #[verifier::when_used_as_spec(spec_can_add)]
    pub fn can_add(self, rhs: Amount) -> (ok: bool)
        ensures
            ok == self.can_add(rhs),
    {
        if self.scale > MONEY_SCALE || rhs.scale > MONEY_SCALE {
            return false;
        }
        let x = self.ten_thousandths();
        let y = rhs.ten_thousandths();
        let sum: i128 = x + y;
        proof {
            lemma_in_range_of_ten_thousandths(sum as int);
            assert((x + y) * pow10(24) == x * pow10(24) + y * pow10(24)) by (nonlinear_arith);
        }
        -MAX_MANTISSA <= sum && sum <= MAX_MANTISSA
    }

    /// Decides [`Amount::spec_can_sub`].
    #[verifier::when_used_as_spec(spec_can_sub)]
    pub fn can_sub(self, rhs: Amount) -> (ok: bool)
        ensures
            ok == self.can_sub(rhs),
    {
        if self.scale > MONEY_SCALE || rhs.scale > MONEY_SCALE {
            return false;
        }
        let x = self.ten_thousandths();
        let y = rhs.ten_thousandths();
        let diff: i128 = x - y;
        proof {
            lemma_in_range_of_ten_thousandths(diff as int);
            assert((x - y) * pow10(24) == x * pow10(24) - y * pow10(24)) by (nonlinear_arith);
        }
        -MAX_MANTISSA <= diff && diff <= MAX_MANTISSA
    }

    /// The amount rounded to `dp` fractional digits, a tie going to the even neighbour.
    /// An amount with no more than `dp` fractional digits is left as it is.
    pub closed spec fn rounded(self, dp: u32) -> Amount {
        if self.scale <= dp {
            self
        } else {
            Amount {
                mantissa: round_half_even(
                    self.mantissa as int,
                    pow10((self.scale - dp) as nat),
                ) as i128,
                scale: dp,
            }
        }
    }

    /// What [`Amount::rounded`] is, by mantissa and scale.
    pub proof fn lemma_rounded(self, dp: u32)
        requires
            self.wf(),
        ensures
            self.scale() <= dp ==> self.rounded(dp) == self,
            self.scale() > dp ==> self.rounded(dp).scale() == dp && self.rounded(dp).mantissa()
                == round_half_even(self.mantissa() as int, pow10((self.scale() - dp) as nat)),
    {
        if self.scale > dp {
            lemma_round_half_even_bound(self.mantissa as int, (self.scale - dp) as nat);
        }
    }

    /// What [`Amount::rounded`] is as a number: the multiple of `10^-dp` nearest to the
    /// amount, the even one of the two where the amount lies halfway between them.
    pub proof fn lemma_rounded_view(self, dp: u32)
        requires
            self.wf(),
            dp <= MAX_SCALE,
        ensures
            self.rounded(dp)@ == round_half_even(self@, pow10((MAX_SCALE - dp) as nat)) * pow10(
                (MAX_SCALE - dp) as nat,
            ),
    {
        let m = self.mantissa as int;
        let unit = pow10((MAX_SCALE - dp) as nat);
        lemma_pow10_positive((MAX_SCALE - dp) as nat);
        if self.scale > dp {
            let d = pow10((self.scale - dp) as nat);
            let p = pow10((MAX_SCALE - self.scale) as nat);
            lemma_pow10_positive((self.scale - dp) as nat);
            lemma_pow10_positive((MAX_SCALE - self.scale) as nat);
            lemma_pow10_adds((self.scale - dp) as nat, (MAX_SCALE - self.scale) as nat);
            lemma_round_half_even_scales(m, d, p);
            self.lemma_rounded(dp);
        } else {
            let f = pow10((dp - self.scale) as nat);
            lemma_pow10_adds((dp - self.scale) as nat, (MAX_SCALE - dp) as nat);
            assert(m * (f * unit) == (m * f) * unit) by (nonlinear_arith);
            lemma_round_half_even_scales(m * f, 1, unit);
            assert(round_half_even(m * f, 1) == m * f);
        }
    }

    /// Rounding does not make a negative amount of one that is not negative.
    pub proof fn lemma_rounded_not_negative(self, dp: u32)
        requires
            self.wf(),
            self@ >= 0,
        ensures
            self.rounded(dp)@ >= 0,
    {
        if self.scale > dp {
            let k = (self.scale - dp) as nat;
            let p = pow10((MAX_SCALE - self.scale) as nat);
            lemma_pow10_positive((MAX_SCALE - self.scale) as nat);
            lemma_pow10_positive((MAX_SCALE - dp) as nat);
            let m = self.mantissa as int;
            assert(m >= 0) by (nonlinear_arith)
                requires
                    m * p >= 0,
                    p >= 1,
            ;
            lemma_round_half_even_bound(m, k);
            let r = round_half_even(m, pow10(k));
            let q = pow10((MAX_SCALE - dp) as nat);
            assert(r * q >= 0) by (nonlinear_arith)
                requires
                    r >= 0,
                    q >= 1,
            ;
        }
    }

    /// Rounds to `dp` fractional digits, a tie going to the even neighbour.
    pub fn round_dp(self, dp: u32) -> (r: Amount)
        ensures
            r == self.rounded(dp),
    {
        let r = decimal_round_dp(self, dp);
        proof {
            use_type_invariant(self);
            self.lemma_rounded(dp);
        }
        r
    }
}

impl PartialEq for Amount {
    /// Two amounts are equal when they are the same number, whatever their scales.
    fn eq(&self, other: &Amount) -> (r: bool) {
        decimal_eq(*self, *other)
    }
}

impl vstd::std_specs::cmp::PartialEqSpecImpl for Amount {
    open spec fn obeys_eq_spec() -> bool {
        true
    }

    open spec fn eq_spec(&self, other: &Amount) -> bool {
        self@ == other@
    }
}

impl Eq for Amount {

}

/// The powers of ten that the scales of money call for.
pub proof fn lemma_pow10_values()
    ensures
        pow10(0) == 1,
        pow10(1) == 10,
        pow10(2) == 100,
        pow10(3) == 1000,
        pow10(4) == 10000,
        pow10(24) == 1_000_000_000_000_000_000_000_000,
        pow10(28) == 10_000_000_000_000_000_000_000_000_000,
{
    reveal_with_fuel(pow10, 30);
}

/// `10^n` is positive.
pub proof fn lemma_pow10_positive(n: nat)
    ensures
        pow10(n) >= 1,
    decreases n,
{
    if n > 0 {
        lemma_pow10_positive((n - 1) as nat);
    }
}

/// `10^(a + b) = 10^a * 10^b`.
pub proof fn lemma_pow10_adds(a: nat, b: nat)
    ensures
        pow10(a + b) == pow10(a) * pow10(b),
    decreases a,
{
    if a > 0 {
        lemma_pow10_adds((a - 1) as nat, b);
        assert(10 * (pow10((a - 1) as nat) * pow10(b)) == (10 * pow10((a - 1) as nat)) * pow10(b))
            by (nonlinear_arith);
    }
}

/// Rounding `x / d` is rounding `(x * p) / (d * p)`.
pub proof fn lemma_round_half_even_scales(x: int, d: int, p: int)
    requires
        d > 0,
        p > 0,
    ensures
        round_half_even(x * p, d * p) == round_half_even(x, d),
{
    let q = x / d;
    let r = x % d;
    assert(x == d * q + r && 0 <= r < d) by {
        vstd::arithmetic::div_mod::lemma_fundamental_div_mod(x, d);
        vstd::arithmetic::div_mod::lemma_mod_bound(x, d);
    }
    assert(x * p == q * (d * p) + r * p && 0 <= r * p < d * p && d * p > 0) by (nonlinear_arith)
        requires
            x == d * q + r,
            0 <= r < d,
            p > 0,
    ;
    vstd::arithmetic::div_mod::lemma_fundamental_div_mod_converse(x * p, d * p, q, r * p);
    assert((2 * (r * p) < d * p) == (2 * r < d) && (2 * (r * p) == d * p) == (2 * r == d))
        by (nonlinear_arith)
        requires
            p > 0,
    ;
}

/// Rounding `x / 10^k` for `k >= 1` gives no larger a magnitude than `x` has.
proof fn lemma_round_half_even_bound(x: int, k: nat)
    requires
        k >= 1,
    ensures
        x >= 0 ==> 0 <= round_half_even(x, pow10(k)) <= x,
        x <= 0 ==> x <= round_half_even(x, pow10(k)) <= 0,
{
    lemma_pow10_positive((k - 1) as nat);
    let d = pow10(k);
    assert(d >= 10);
    let q = x / d;
    let r = x % d;
    assert(x == d * q + r && 0 <= r < d) by {
        vstd::arithmetic::div_mod::lemma_fundamental_div_mod(x, d);
        vstd::arithmetic::div_mod::lemma_mod_bound(x, d);
    }
    if x >= 0 {
        assert(q >= 0 && q <= x && (q >= 1 ==> q + 1 <= x) && (q == 0 ==> x == r))
            by (nonlinear_arith)
            requires
                x == d * q + r,
                0 <= r < d,
                d >= 10,
                x >= 0,
        ;
    } else {
        assert(q <= -1 && x <= q) by (nonlinear_arith)
            requires
                x == d * q + r,
                0 <= r < d,
                d >= 10,
                x < 0,
        ;
    }
}

/// An amount of `t` ten-thousandths is in range exactly when `t` is a mantissa.
proof fn lemma_in_range_of_ten_thousandths(t: int)
    ensures
        in_range(t * pow10(24)) <==> -MAX_MANTISSA <= t <= MAX_MANTISSA,
{
    lemma_pow10_values();
    let p = pow10(24);
    assert(p > 0);
    assert(t <= MAX_MANTISSA ==> t * p <= MAX_MANTISSA * p) by (nonlinear_arith)
        requires
            p > 0,
    ;
    assert(t > MAX_MANTISSA ==> t * p > MAX_MANTISSA * p) by (nonlinear_arith)
        requires
            p > 0,
    ;
    assert(-MAX_MANTISSA <= t ==> -MAX_MANTISSA * p <= t * p) by (nonlinear_arith)
        requires
            p > 0,
    ;
    assert(-MAX_MANTISSA > t ==> -MAX_MANTISSA * p > t * p) by (nonlinear_arith)
        requires
            p > 0,
    ;
}

/// A number in the range of money fits at every scale of money.
pub proof fn lemma_money_fits(x: int, scale: nat)
    requires
        scale <= MONEY_SCALE,
        in_range(x),
    ensures
        fits(x, scale),
{
    lemma_pow10_adds((MONEY_SCALE - scale) as nat, 24);
    lemma_pow10_positive((MONEY_SCALE - scale) as nat);
    let f = pow10((MONEY_SCALE - scale) as nat);
    let p = pow10(24);
    lemma_pow10_positive(24);
    assert(MAX_MANTISSA * p <= MAX_MANTISSA * (f * p)) by (nonlinear_arith)
        requires
            f >= 1,
            p >= 1,
    ;
}

} // verus!
