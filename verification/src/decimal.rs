//! Decimal numbers read from text, and the fixed-point percentages derived from them.
//!
//! JSON numbers reach the library as the decimal text that `serde_json` prints for them, and
//! some services send numbers as strings. Both are read here into an exact decimal
//! `± mantissa × 10^exponent`. Percentages are kept in fixed point: one unit is a
//! billionth of a percent, so `PERCENT_UNIT` stands for 1%.
use vstd::prelude::*;

verus! {

/// One percent in the fixed-point scale used for percentages (billionths of a percent).
pub const PERCENT_UNIT: i64 = 1_000_000_000;

/// One hundred percent in the fixed-point scale.
pub const FULL_PERCENT: i64 = 100_000_000_000;

/// The largest exponent magnitude that is kept when reading `e` notation; larger ones are cut
/// down to it, which leaves every comparison and conversion below unchanged.
pub const EXPONENT_CAP: i64 = 10_000;

/// `10^n`.
pub open spec fn pow10(n: nat) -> nat
    decreases n,
{
    if n == 0 {
        1
    } else {
        10 * pow10((n - 1) as nat)
    }
}

pub proof fn lemma_pow10_positive(n: nat)
    ensures
        pow10(n) >= 1,
    decreases n,
{
    if n > 0 {
        lemma_pow10_positive((n - 1) as nat);
    }
}

pub proof fn lemma_pow10_monotone(a: nat, b: nat)
    requires
        a <= b,
    ensures
        pow10(a) <= pow10(b),
    decreases b,
{
    if a < b {
        lemma_pow10_monotone(a, (b - 1) as nat);
        lemma_pow10_positive((b - 1) as nat);
    }
}

pub proof fn lemma_pow10_add(a: nat, b: nat)
    ensures
        pow10(a + b) == pow10(a) * pow10(b),
    decreases b,
{
    if b == 0 {
        assert(pow10(0) == 1);
        assert(a + b == a);
    } else {
        let b1 = (b - 1) as nat;
        lemma_pow10_add(a, b1);
        assert(pow10(b) == 10 * pow10(b1));
        assert((a + b - 1) as nat == a + b1);
        assert(pow10(a + b) == 10 * pow10(a + b1));
        let x = pow10(a);
        let y = pow10(b1);
        assert(x * (10 * y) == 10 * (x * y)) by (nonlinear_arith);
    }
}

pub proof fn lemma_pow10_values()
    ensures
        pow10(2) == 100,
        pow10(9) == 1_000_000_000,
        pow10(11) == 100_000_000_000,
        pow10(18) == 1_000_000_000_000_000_000,
        pow10(19) == 10_000_000_000_000_000_000,
        pow10(20) == 100_000_000_000_000_000_000,
        pow10(21) == 1_000_000_000_000_000_000_000,
        pow10(38) == 100_000_000_000_000_000_000_000_000_000_000_000_000,
{
    reveal_with_fuel(pow10, 39);
}

/// `10^n` for small `n`.
pub fn ten_pow(n: u32) -> (res: u128)
    requires
        n <= 38,
    ensures
        res == pow10(n as nat),
{
    let mut p: u128 = 1;
    let mut i: u32 = 0;
    while i < n
        invariant
            i <= n <= 38,
            p == pow10(i as nat),
        decreases n - i,
    {
        proof {
            lemma_pow10_monotone((i + 1) as nat, 38);
            lemma_pow10_values();
        }
        p = p * 10;
        i = i + 1;
    }
    p
}

/// An exact decimal `± mantissa × 10^exponent`.
#[derive(Clone, Copy, Debug, PartialEq, Eq)]
pub struct Decimal {
    pub negative: bool,
    pub mantissa: u64,
    pub exponent: i32,
}

/// Sign of `m × 10^e − k`: `-1`, `0` or `1`.
pub open spec fn magnitude_sign(m: nat, e: int, k: nat) -> int {
    let (lhs, rhs) = if e >= 0 {
        (m * pow10(e as nat), k)
    } else {
        (m, k * pow10((-e) as nat))
    };
    if lhs < rhs {
        -1
    } else if lhs == rhs {
        0
    } else {
        1
    }
}

impl Decimal {
    /// The value is below zero.
    pub open spec fn is_below_zero(self) -> bool {
        self.negative && self.mantissa > 0
    }

    /// The value lies in `[0, k]`.
    pub open spec fn is_within(self, k: nat) -> bool {
        !self.is_below_zero() && (self.mantissa == 0 || magnitude_sign(
            self.mantissa as nat,
            self.exponent as int,
            k,
        ) <= 0)
    }

    /// The value is greater than `k` (for `k >= 0`).
    pub open spec fn is_above(self, k: nat) -> bool {
        !self.negative && self.mantissa > 0 && magnitude_sign(
            self.mantissa as nat,
            self.exponent as int,
            k,
        ) > 0
    }

    /// Magnitude of the value rounded toward zero.
    pub open spec fn trunc_magnitude(self) -> nat {
        if self.exponent >= 0 {
            self.mantissa as nat * pow10(self.exponent as nat)
        } else {
            self.mantissa as nat / pow10((-self.exponent) as nat)
        }
    }

    /// The value rounded toward zero and saturated to `i64`, as `f64 as i64` converts.
    pub open spec fn trunc_i64(self) -> int {
        let t = self.trunc_magnitude();
        if self.negative {
            if t > 9223372036854775808 {
                -9223372036854775808
            } else {
                -t
            }
        } else {
            if t > 9223372036854775807 {
                9223372036854775807
            } else {
                t as int
            }
        }
    }

    /// `|value| × 10^s` rounded toward zero, for a scale shift `s`.
    pub open spec fn scaled_magnitude(self, s: int) -> nat {
        let e = self.exponent + s;
        if e >= 0 {
            self.mantissa as nat * pow10(e as nat)
        } else {
            self.mantissa as nat / pow10((-e) as nat)
        }
    }
}

/// Sign of `m × 10^e − k`, for a small bound `k`.
pub fn compare_magnitude(m: u64, e: i32, k: u64) -> (res: i8)
    requires
        m > 0,
        1 <= k <= 100,
    ensures
        res as int == magnitude_sign(m as nat, e as int, k as nat),
{
    proof {
        lemma_pow10_values();
    }
    if e >= 3 {
        proof {
            lemma_pow10_monotone(2, e as nat);
            assert(m as nat * pow10(e as nat) >= pow10(e as nat)) by (nonlinear_arith)
                requires
                    m >= 1,
            ;
        }
        if k == 100 {
            proof {
                lemma_pow10_monotone(3, e as nat);
                reveal_with_fuel(pow10, 4);
            }
        }
        return 1;
    }
    if e >= 0 {
        let p = ten_pow(e as u32);
        proof {
            lemma_pow10_monotone(e as nat, 2);
            assert(m as nat * p as nat <= 18446744073709551615nat * 100) by (nonlinear_arith)
                requires
                    m <= 18446744073709551615nat,
                    p <= 100,
            ;
        }
        let lhs: u128 = (m as u128) * p;
        let rhs: u128 = k as u128;
        if lhs < rhs {
            return -1;
        } else if lhs == rhs {
            return 0;
        } else {
            return 1;
        }
    }
    let d: i64 = -(e as i64);
    if d >= 21 {
        proof {
            lemma_pow10_monotone(21, d as nat);
            assert(k as nat * pow10(d as nat) >= pow10(d as nat)) by (nonlinear_arith)
                requires
                    k >= 1,
            ;
        }
        return -1;
    }
    let p = ten_pow(d as u32);
    proof {
        lemma_pow10_monotone(d as nat, 20);
        assert(k as nat * pow10(d as nat) <= 100 * pow10(20)) by (nonlinear_arith)
            requires
                k <= 100,
                pow10(d as nat) <= pow10(20),
        ;
    }
    let rhs: u128 = (k as u128) * p;
    let lhs: u128 = m as u128;
    if lhs < rhs {
        -1
    } else if lhs == rhs {
        0
    } else {
        1
    }
}

impl Decimal {
    /// Whether the value is below zero.
    pub fn below_zero(&self) -> (res: bool)
        ensures
            res == self.is_below_zero(),
    {
        self.negative && self.mantissa > 0
    }

    /// Whether the value lies in `[0, k]`, for `1 <= k <= 100`.
    pub fn within(&self, k: u64) -> (res: bool)
        requires
            1 <= k <= 100,
        ensures
            res == self.is_within(k as nat),
    {
        if self.below_zero() {
            return false;
        }
        if self.mantissa == 0 {
            return true;
        }
        compare_magnitude(self.mantissa, self.exponent, k) <= 0
    }

    /// Whether the value is greater than `k`, for `1 <= k <= 100`.
    pub fn above(&self, k: u64) -> (res: bool)
        requires
            1 <= k <= 100,
        ensures
            res == self.is_above(k as nat),
    {
        !self.negative && self.mantissa > 0 && compare_magnitude(self.mantissa, self.exponent, k)
            > 0
    }

    /// The value rounded toward zero and saturated to `i64` (`f64 as i64`).
    pub fn truncate(&self) -> (res: i64)
        ensures
            res as int == self.trunc_i64(),
    {
        proof {
            lemma_pow10_values();
        }
        let m = self.mantissa;
        // `mag` is the truncated magnitude, or any value above `i64::MAX + 1` when that is larger.
        let mag: u128 = if self.exponent >= 0 {
            if m > 0 && self.exponent >= 19 {
                proof {
                    lemma_pow10_monotone(19, self.exponent as nat);
                    assert(m as nat * pow10(self.exponent as nat) >= pow10(self.exponent as nat))
                        by (nonlinear_arith)
                        requires
                            m >= 1,
                    ;
                }
                10_000_000_000_000_000_000
            } else if m == 0 {
                assert(0 * pow10(self.exponent as nat) == 0);
                0
            } else {
                proof {
                    lemma_pow10_monotone(self.exponent as nat, 18);
                    assert(m as nat * pow10(self.exponent as nat) <= 18446744073709551615nat
                        * pow10(18)) by (nonlinear_arith)
                        requires
                            m <= 18446744073709551615nat,
                            pow10(self.exponent as nat) <= pow10(18),
                    ;
                }
                let v = (m as u128) * ten_pow(self.exponent as u32);
                assert(v == self.trunc_magnitude());
                v
            }
        } else {
            let d: i64 = -(self.exponent as i64);
            if d >= 20 {
                proof {
                    lemma_pow10_monotone(20, d as nat);
                    assert(m as nat / pow10(d as nat) == 0) by (nonlinear_arith)
                        requires
                            m < pow10(d as nat),
                    ;
                }
                0
            } else {
                let p = ten_pow(d as u32);
                proof {
                    lemma_pow10_positive(d as nat);
                }
                let v = (m as u128) / p;
                assert(v == self.trunc_magnitude());
                v
            }
        };
        if self.negative {
            if mag >= 9223372036854775808 {
                i64::MIN
            } else {
                -(mag as i64)
            }
        } else {
            if mag > 9223372036854775807 {
                i64::MAX
            } else {
                mag as i64
            }
        }
    }

    /// `|value| × 10^s` rounded toward zero, when `value` is at most 100 and `s <= 11`.
    pub fn scaled(&self, s: i32) -> (res: i64)
        requires
            self.is_within(100),
            0 <= s <= 11,
        ensures
            res as int == self.scaled_magnitude(s as int),
            res <= 100 * pow10(s as nat),
            self.is_within(1) ==> res <= pow10(s as nat),
    {
        proof {
            lemma_pow10_values();
            lemma_scaled_bound(*self, 100, s as nat);
            if self.is_within(1) {
                lemma_scaled_bound(*self, 1, s as nat);
            }
        }
        let m = self.mantissa;
        let e: i64 = self.exponent as i64 + s as i64;
        if m == 0 {
            proof {
                if e < 0 {
                    lemma_pow10_positive((-e) as nat);
                    assert(0nat / pow10((-e) as nat) == 0) by (nonlinear_arith)
                        requires
                            pow10((-e) as nat) >= 1,
                    ;
                } else {
                    assert(0nat * pow10(e as nat) == 0);
                }
                assert(self.scaled_magnitude(s as int) == 0);
                lemma_pow10_positive(s as nat);
            }
            return 0;
        }
        proof {
            lemma_pow10_add(s as nat, if self.exponent >= 0 { self.exponent as nat } else { 0 });
            if self.exponent >= 3 {
                lemma_pow10_monotone(3, self.exponent as nat);
                reveal_with_fuel(pow10, 4);
                assert(m as nat * pow10(self.exponent as nat) >= pow10(self.exponent as nat))
                    by (nonlinear_arith)
                    requires
                        m >= 1,
                ;
                assert(magnitude_sign(m as nat, self.exponent as int, 100) > 0);
            }
        }
        if e >= 0 {
            // value <= 100 gives mantissa × 10^exponent <= 100, so the product fits.
            proof {
                if self.exponent >= 0 {
                    assert(m as nat * pow10(self.exponent as nat) <= 100);
                    assert(m as nat * pow10(e as nat) == m as nat * pow10(self.exponent as nat)
                        * pow10(s as nat)) by (nonlinear_arith)
                        requires
                            pow10(e as nat) == pow10(s as nat) * pow10(self.exponent as nat),
                    ;
                    assert(m as nat * pow10(self.exponent as nat) * pow10(s as nat) <= 100
                        * pow10(s as nat)) by (nonlinear_arith)
                        requires
                            m as nat * pow10(self.exponent as nat) <= 100,
                    ;
                } else {
                    let d = (-self.exponent) as nat;
                    assert(m as nat <= 100 * pow10(d));
                    lemma_pow10_add(e as nat, d);
                    assert(e as nat + d == s as nat);
                    assert(m as nat * pow10(e as nat) <= 100 * pow10(d) * pow10(e as nat))
                        by (nonlinear_arith)
                        requires
                            m as nat <= 100 * pow10(d),
                    ;
                    assert(100 * pow10(d) * pow10(e as nat) == 100 * pow10(s as nat))
                        by (nonlinear_arith)
                        requires
                            pow10(s as nat) == pow10(e as nat) * pow10(d),
                    ;
                }
                lemma_pow10_monotone(s as nat, 11);
                lemma_pow10_monotone(e as nat, s as nat + 2);
            }
            let p = ten_pow(e as u32);
            let v: u128 = (m as u128) * p;
            v as i64
        } else {
            let d: i64 = -e;
            if d >= 20 {
                proof {
                    lemma_pow10_monotone(20, d as nat);
                    assert(m as nat / pow10(d as nat) == 0) by (nonlinear_arith)
                        requires
                            m < pow10(d as nat),
                    ;
                    lemma_pow10_positive(s as nat);
                }
                0
            } else {
                let p = ten_pow(d as u32);
                proof {
                    lemma_pow10_positive(d as nat);
                    assert(m as nat / pow10(d as nat) <= m as nat) by (nonlinear_arith)
                        requires
                            pow10(d as nat) >= 1,
                    ;
                    // value <= 100 with a negative exponent: m <= 100 × 10^(d + s).
                    let de = (-self.exponent) as nat;
                    assert(de == d as nat + s as nat);
                    lemma_pow10_add(d as nat, s as nat);
                    assert(m as nat <= 100 * pow10(de));
                    assert(m as nat / pow10(d as nat) <= 100 * pow10(s as nat))
                        by (nonlinear_arith)
                        requires
                            m as nat <= 100 * (pow10(d as nat) * pow10(s as nat)),
                            pow10(d as nat) >= 1,
                    ;
                    lemma_pow10_monotone(s as nat, 11);
                }
                ((m as u128) / p) as i64
            }
        }
    }
}

/// A value in `[0, k]` scaled by `10^s` stays within `k × 10^s`.
pub proof fn lemma_scaled_bound(d: Decimal, k: nat, s: nat)
    requires
        d.is_within(k),
    ensures
        d.scaled_magnitude(s as int) <= k * pow10(s),
{
    let m = d.mantissa as nat;
    let e = d.exponent as int + s;
    lemma_pow10_positive(s);
    if m == 0 {
        if e < 0 {
            lemma_pow10_positive((-e) as nat);
            assert(0nat / pow10((-e) as nat) == 0) by (nonlinear_arith)
                requires
                    pow10((-e) as nat) >= 1,
            ;
        }
        assert(0 <= k * pow10(s)) by (nonlinear_arith);
    } else if d.exponent >= 0 {
        let x = d.exponent as nat;
        assert(m * pow10(x) <= k);
        lemma_pow10_add(x, s);
        assert(e as nat == x + s);
        assert(m * pow10(x + s) == (m * pow10(x)) * pow10(s)) by (nonlinear_arith)
            requires
                pow10(x + s) == pow10(x) * pow10(s),
        ;
        assert((m * pow10(x)) * pow10(s) <= k * pow10(s)) by (nonlinear_arith)
            requires
                m * pow10(x) <= k,
        ;
    } else {
        let de = (-d.exponent) as nat;
        assert(m <= k * pow10(de));
        if e >= 0 {
            let ee = e as nat;
            assert(de + ee == s);
            lemma_pow10_add(de, ee);
            assert(m * pow10(ee) <= k * pow10(de) * pow10(ee)) by (nonlinear_arith)
                requires
                    m <= k * pow10(de),
            ;
            assert(k * pow10(de) * pow10(ee) == k * pow10(s)) by (nonlinear_arith)
                requires
                    pow10(s) == pow10(de) * pow10(ee),
            ;
        } else {
            let r = (-e) as nat;
            assert(s + r == de);
            lemma_pow10_add(s, r);
            lemma_pow10_positive(r);
            assert(m / pow10(r) <= k * pow10(s)) by (nonlinear_arith)
                requires
                    m <= k * (pow10(s) * pow10(r)),
                    pow10(r) >= 1,
            ;
        }
    }
}

/// A value in `[0, 1]` is also in `[0, 100]`.
pub proof fn lemma_within_one(d: Decimal)
    requires
        d.is_within(1),
    ensures
        d.is_within(100),
{
    if d.mantissa > 0 {
        let m = d.mantissa as nat;
        if d.exponent < 0 {
            let de = (-d.exponent) as nat;
            assert(m <= 1 * pow10(de));
            assert(1 * pow10(de) <= 100 * pow10(de)) by (nonlinear_arith);
        }
    }
}

/// A decimal digit character.
pub open spec fn is_digit(c: char) -> bool {
    '0' <= c && c <= '9'
}

/// Value of a decimal digit character.
pub open spec fn digit_value(c: char) -> nat {
    (c as u32 - 48) as nat
}

/// First index at or after `i` that does not hold a digit.
pub open spec fn digits_end(s: Seq<char>, i: int) -> int
    decreases s.len() - i,
{
    if 0 <= i < s.len() && is_digit(s[i]) {
        digits_end(s, i + 1)
    } else {
        i
    }
}

/// Value of the digits `s[a..b]`.
pub open spec fn digits_value(s: Seq<char>, a: int, b: int) -> nat
    decreases b - a,
{
    if b <= a {
        0
    } else {
        digits_value(s, a, b - 1) * 10 + digit_value(s[b - 1])
    }
}

/// Reads text in the shape `[+-]digits[.digits][(e|E)[+-]digits]`, with at least one digit
/// before the exponent, as `(negative, mantissa, exponent)`. A mantissa above `u64::MAX`, or a
/// text of more than a million characters, is not read; an exponent magnitude above
/// `EXPONENT_CAP` is cut down to it.
pub open spec fn decimal_text(s: Seq<char>) -> Option<(bool, nat, int)> {
    let signed = s.len() > 0 && (s[0] == '+' || s[0] == '-');
    let negative = s.len() > 0 && s[0] == '-';
    let p0: int = if signed {
        1
    } else {
        0
    };
    let p1 = digits_end(s, p0);
    let has_dot = p1 < s.len() && s[p1] == '.';
    let p2 = if has_dot {
        p1 + 1
    } else {
        p1
    };
    let p3 = if has_dot {
        digits_end(s, p2)
    } else {
        p1
    };
    let mantissa = digits_value(s, p0, p1) * pow10((p3 - p2) as nat) + digits_value(s, p2, p3);
    if s.len() > 1_000_000 || (p1 - p0) + (p3 - p2) == 0 || mantissa > 18446744073709551615 {
        None
    } else if p3 == s.len() {
        Some((negative, mantissa, -(p3 - p2)))
    } else if s[p3] == 'e' || s[p3] == 'E' {
        let q0 = p3 + 1;
        let exp_negative = q0 < s.len() && s[q0] == '-';
        let q1 = if q0 < s.len() && (s[q0] == '+' || s[q0] == '-') {
            q0 + 1
        } else {
            q0
        };
        let q2 = digits_end(s, q1);
        if q2 == q1 || q2 != s.len() {
            None
        } else {
            let v = digits_value(s, q1, q2);
            let capped: int = if v > EXPONENT_CAP {
                EXPONENT_CAP as int
            } else {
                v as int
            };
            Some((negative, mantissa, (if exp_negative { -capped } else { capped }) - (p3 - p2)))
        }
    } else {
        None
    }
}

proof fn lemma_digits_end_bounds(s: Seq<char>, i: int)
    requires
        0 <= i <= s.len(),
    ensures
        i <= digits_end(s, i) <= s.len(),
        forall|j: int| i <= j < digits_end(s, i) ==> is_digit(#[trigger] s[j]),
        digits_end(s, i) < s.len() ==> !is_digit(s[digits_end(s, i)]),
    decreases s.len() - i,
{
    if i < s.len() && is_digit(s[i]) {
        lemma_digits_end_bounds(s, i + 1);
    }
}

proof fn lemma_digits_value_monotone(s: Seq<char>, a: int, b: int, c: int)
    requires
        a <= b <= c,
    ensures
        digits_value(s, a, b) <= digits_value(s, a, c),
    decreases c - b,
{
    if b < c {
        lemma_digits_value_monotone(s, a, b, c - 1);
    }
}

/// Scans the digits starting at `i` and returns where they end.
fn scan_digits(s: &str, n: usize, i: usize) -> (res: usize)
    requires
        n == s@.len(),
        i <= n,
    ensures
        res == digits_end(s@, i as int),
{
    proof {
        lemma_digits_end_bounds(s@, i as int);
    }
    let mut j = i;
    while j < n && is_digit_char(s.get_char(j))
        invariant
            n == s@.len(),
            i <= j <= n,
            digits_end(s@, i as int) == digits_end(s@, j as int),
        decreases n - j,
    {
        j = j + 1;
    }
    j
}

fn is_digit_char(c: char) -> (res: bool)
    ensures
        res == is_digit(c),
{
    '0' <= c && c <= '9'
}

fn digit_of(c: char) -> (res: u64)
    requires
        is_digit(c),
    ensures
        res == digit_value(c),
        res < 10,
{
    (c as u32 - 48) as u64
}

/// Accumulates the digits `s[a..b]` onto `start`, failing when the result passes `u64::MAX`.
fn accumulate(s: &str, n: usize, a: usize, b: usize, start: u64) -> (res: Option<u64>)
    requires
        n == s@.len(),
        a <= b <= n,
        forall|j: int| a <= j < b ==> is_digit(#[trigger] s@[j]),
    ensures
        ({
            let total = start as nat * pow10((b - a) as nat) + digits_value(s@, a as int, b as int);
            match res {
                Some(v) => v as nat == total,
                None => total > 18446744073709551615,
            }
        }),
{
    let mut v: u64 = start;
    let mut j: usize = a;
    assert(pow10(0) == 1);
    assert(digits_value(s@, a as int, a as int) == 0);
    assert(start as nat * pow10(0) + digits_value(s@, a as int, a as int) == start as nat);
    while j < b
        invariant
            n == s@.len(),
            a <= j <= b <= n,
            forall|k: int| a <= k < b ==> is_digit(#[trigger] s@[k]),
            v as nat == start as nat * pow10((j - a) as nat) + digits_value(s@, a as int, j as int),
        decreases b - j,
    {
        let d = digit_of(s.get_char(j));
        proof {
            assert(digits_value(s@, a as int, j + 1) == digits_value(s@, a as int, j as int) * 10
                + digit_value(s@[j as int]));
            assert(pow10((j + 1 - a) as nat) == 10 * pow10((j - a) as nat));
            assert(start as nat * (10 * pow10((j - a) as nat)) == 10 * (start as nat * pow10(
                (j - a) as nat,
            ))) by (nonlinear_arith);
        }
        if v > (18446744073709551615u64 - d) / 10 {
            proof {
                // The running value only grows from here on.
                assert(v as nat * 10 + d as nat > 18446744073709551615);
                lemma_rest_grows(s@, start as nat, a as int, (j + 1) as int, b as int);
            }
            return None;
        }
        v = v * 10 + d;
        j = j + 1;
    }
    Some(v)
}

proof fn lemma_rest_grows(s: Seq<char>, start: nat, a: int, j: int, b: int)
    requires
        a <= j <= b,
    ensures
        start * pow10((b - a) as nat) + digits_value(s, a, b) >= start * pow10((j - a) as nat)
            + digits_value(s, a, j),
    decreases b - j,
{
    if j < b {
        lemma_rest_grows(s, start, a, j, b - 1);
        let x = start * pow10((b - 1 - a) as nat) + digits_value(s, a, b - 1);
        assert(pow10((b - a) as nat) == 10 * pow10((b - 1 - a) as nat));
        assert(start * pow10((b - a) as nat) + digits_value(s, a, b) >= x) by (nonlinear_arith)
            requires
                pow10((b - a) as nat) == 10 * pow10((b - 1 - a) as nat),
                digits_value(s, a, b) >= digits_value(s, a, b - 1) * 10,
                x == start * pow10((b - 1 - a) as nat) + digits_value(s, a, b - 1),
        ;
    }
}

/// Text that is only decimal digits, at least one, read as a number that fits in `u64`
/// (what `Value::as_u64` accepts of a number's text).
pub open spec fn unsigned_text_value(s: Seq<char>) -> Option<nat> {
    if s.len() > 0 && digits_end(s, 0) == s.len() && digits_value(s, 0, s.len() as int)
        <= 18446744073709551615 {
        Some(digits_value(s, 0, s.len() as int))
    } else {
        None
    }
}

/// Reads text of decimal digits as a `u64` (see `unsigned_text_value`).
pub fn parse_u64_digits(s: &str) -> (res: Option<u64>)
    ensures
        match unsigned_text_value(s@) {
            Some(v) => res == Some(v as u64),
            None => res.is_none(),
        },
{
    let n = s.unicode_len();
    if n == 0 {
        return None;
    }
    let end = scan_digits(s, n, 0);
    if end != n {
        return None;
    }
    proof {
        lemma_digits_end_bounds(s@, 0);
        assert(0 * pow10(n as nat) == 0);
    }
    accumulate(s, n, 0, n, 0)
}

/// `str::parse::<u64>`: an optional `+`, then decimal digits that fit in `u64`.
pub open spec fn u64_text_value(s: Seq<char>) -> Option<nat> {
    if s.len() > 0 && s[0] == '+' {
        unsigned_text_value(s.drop_first())
    } else {
        unsigned_text_value(s)
    }
}

/// `str::parse::<u64>` (see `u64_text_value`).
pub fn parse_u64(s: &str) -> (res: Option<u64>)
    ensures
        match u64_text_value(s@) {
            Some(v) => res == Some(v as u64),
            None => res.is_none(),
        },
{
    let n = s.unicode_len();
    if n > 0 && s.get_char(0) == '+' {
        let rest = s.substring_char(1, n);
        assert(rest@ =~= s@.drop_first());
        parse_u64_digits(rest)
    } else {
        parse_u64_digits(s)
    }
}

/// Reads a decimal number from text (see `decimal_text`).
pub fn parse_decimal(s: &str) -> (res: Option<Decimal>)
    ensures
        match decimal_text(s@) {
            Some((neg, m, e)) => res == Some(
                Decimal { negative: neg, mantissa: m as u64, exponent: e as i32 },
            ),
            None => res.is_none(),
        },
{
    let n = s.unicode_len();
    let signed = n > 0 && (s.get_char(0) == '+' || s.get_char(0) == '-');
    let negative = n > 0 && s.get_char(0) == '-';
    let p0: usize = if signed {
        1
    } else {
        0
    };
    if n > 1_000_000 {
        return None;
    }
    let p1 = scan_digits(s, n, p0);
    proof {
        lemma_digits_end_bounds(s@, p0 as int);
    }
    let has_dot = p1 < n && s.get_char(p1) == '.';
    let p2: usize = if has_dot {
        p1 + 1
    } else {
        p1
    };
    let p3: usize = if has_dot {
        scan_digits(s, n, p2)
    } else {
        p1
    };
    proof {
        lemma_digits_end_bounds(s@, p2 as int);
    }
    if (p1 - p0) + (p3 - p2) == 0 {
        return None;
    }
    let int_part = accumulate(s, n, p0, p1, 0);
    let mantissa = match int_part {
        None => {
            proof {
                lemma_pow10_positive((p3 - p2) as nat);
                let iv = digits_value(s@, p0 as int, p1 as int);
                assert(iv * pow10((p3 - p2) as nat) >= iv) by (nonlinear_arith)
                    requires
                        pow10((p3 - p2) as nat) >= 1,
                ;
                assert(0 * pow10((p1 - p0) as nat) == 0);
            }
            return None;
        },
        Some(iv) => {
            proof {
                assert(0 * pow10((p1 - p0) as nat) == 0);
            }
            match accumulate(s, n, p2, p3, iv) {
                None => {
                    return None;
                },
                Some(m) => m,
            }
        },
    };
    if p3 == n {
        return Some(Decimal { negative, mantissa, exponent: -((p3 - p2) as i32) });
    }
    let c = s.get_char(p3);
    if c != 'e' && c != 'E' {
        return None;
    }
    let q0 = p3 + 1;
    let exp_negative = q0 < n && s.get_char(q0) == '-';
    let q1: usize = if q0 < n && (s.get_char(q0) == '+' || s.get_char(q0) == '-') {
        q0 + 1
    } else {
        q0
    };
    let q2 = scan_digits(s, n, q1);
    proof {
        lemma_digits_end_bounds(s@, q1 as int);
    }
    if q2 == q1 || q2 != n {
        return None;
    }
    let mut ev: i64 = 0;
    let mut j: usize = q1;
    while j < q2
        invariant
            n == s@.len(),
            q1 <= j <= q2 <= n,
            forall|k: int| q1 <= k < q2 ==> is_digit(#[trigger] s@[k]),
            0 <= ev <= EXPONENT_CAP,
            ev == (if digits_value(s@, q1 as int, j as int) > EXPONENT_CAP {
                EXPONENT_CAP as int
            } else {
                digits_value(s@, q1 as int, j as int) as int
            }),
        decreases q2 - j,
    {
        let d = digit_of(s.get_char(j));
        let next = ev * 10 + d as i64;
        ev = if next > EXPONENT_CAP {
            EXPONENT_CAP
        } else {
            next
        };
        j = j + 1;
    }
    let frac_len = (p3 - p2) as i64;
    let e: i64 = if exp_negative {
        -ev
    } else {
        ev
    } - frac_len;
    Some(Decimal { negative, mantissa, exponent: e as i32 })
}

/// Reads text as `str::parse::<i64>` does: an optional sign and at least one digit, in range.
pub open spec fn int_text_value(s: Seq<char>) -> Option<int> {
    let signed = s.len() > 0 && (s[0] == '+' || s[0] == '-');
    let p0: int = if signed {
        1
    } else {
        0
    };
    let v = digits_value(s, p0, s.len() as int);
    let value: int = if s.len() > 0 && s[0] == '-' {
        -v
    } else {
        v as int
    };
    if p0 == s.len() || digits_end(s, p0) != s.len() || value < -9223372036854775808 || value
        > 9223372036854775807 {
        None
    } else {
        Some(value)
    }
}

/// `str::parse::<i64>`.
pub fn parse_i64(s: &str) -> (res: Option<i64>)
    ensures
        match int_text_value(s@) {
            Some(v) => res == Some(v as i64),
            None => res.is_none(),
        },
{
    let n = s.unicode_len();
    let signed = n > 0 && (s.get_char(0) == '+' || s.get_char(0) == '-');
    let negative = n > 0 && s.get_char(0) == '-';
    let p0: usize = if signed {
        1
    } else {
        0
    };
    if p0 == n {
        return None;
    }
    let end = scan_digits(s, n, p0);
    proof {
        lemma_digits_end_bounds(s@, p0 as int);
    }
    if end != n {
        return None;
    }
    match accumulate(s, n, p0, n, 0) {
        None => {
            proof {
                assert(0 * pow10((n - p0) as nat) == 0);
            }
            None
        },
        Some(v) => {
            proof {
                assert(0 * pow10((n - p0) as nat) == 0);
            }
            if negative {
                if v > 9223372036854775808 {
                    None
                } else if v == 9223372036854775808 {
                    Some(i64::MIN)
                } else {
                    Some(-(v as i64))
                }
            } else {
                if v > 9223372036854775807 {
                    None
                } else {
                    Some(v as i64)
                }
            }
        },
    }
}

} // verus!
