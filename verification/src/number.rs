//! JavaScript numbers, without floating point.
//!
//! A number that the runtime hands over is held as the bits of its binary64 representation, and a
//! whole number on its way to the runtime as the integer that the nearest binary64 number has for
//! its value.

use vstd::arithmetic::div_mod::{
    lemma_div_denominator, lemma_fundamental_div_mod, lemma_fundamental_div_mod_converse,
    lemma_mod_multiples_basic,
};
use vstd::arithmetic::mul::{lemma_mul_inequality, lemma_mul_is_associative};
use vstd::arithmetic::power2::{
    lemma2_to64, lemma2_to64_rest, lemma_pow2_adds, lemma_pow2_pos, lemma_pow2_strictly_increases,
    lemma_pow2_unfold, pow2,
};
use vstd::prelude::*;

verus! {

/// Two to the power of 52: the value of the implicit leading bit of a significand.
pub const HIDDEN_BIT: u64 = 0x10_0000_0000_0000;

/// Two to the power of 53: every whole number up to it is a binary64 number.
pub const EXACT_LIMIT: u64 = 0x20_0000_0000_0000;

/// Two to the power of 63: the weight of the sign bit.
pub const SIGN_BIT: u64 = 0x8000_0000_0000_0000;

/// The largest magnitude that `nearest_double` takes: two to the power of 100.
pub const ROUNDING_LIMIT: i128 = 0x10_0000_0000_0000_0000_0000_0000;

/// What is left of a number when its fractional part is dropped.
pub enum Whole {
    NotANumber,
    Infinite { negative: bool },
    Finite(int),
}

/// `whole` as an integer between `low` and `high`: zero for what is not a number, and the nearer
/// bound for what lies outside.
pub open spec fn saturate(whole: Whole, low: int, high: int) -> int {
    match whole {
        Whole::NotANumber => 0,
        Whole::Infinite { negative } => if negative {
            low
        } else {
            high
        },
        Whole::Finite(value) => if value < low {
            low
        } else if value > high {
            high
        } else {
            value
        },
    }
}

/// A JavaScript number, given by the bits of its binary64 representation.
#[derive(Clone, Copy, Debug, PartialEq, Eq, Structural)]
pub struct Number {
    pub bits: u64,
}

impl Number {
    pub open spec fn negative(self) -> bool {
        self.bits >= SIGN_BIT
    }

    /// The biased exponent.
    pub open spec fn exponent(self) -> int {
        (self.bits as int / HIDDEN_BIT as int) % 2048
    }

    pub open spec fn fraction(self) -> int {
        self.bits as int % HIDDEN_BIT as int
    }

    /// The significand as a whole number. The implicit leading bit is zero for the smallest
    /// exponent.
    pub open spec fn significand(self) -> int {
        if self.exponent() == 0 {
            self.fraction()
        } else {
            HIDDEN_BIT + self.fraction()
        }
    }

    /// The power of two by which the significand is multiplied.
    pub open spec fn scale(self) -> int {
        if self.exponent() == 0 {
            -1074
        } else {
            self.exponent() - 1075
        }
    }

    /// The magnitude of a finite number without its fractional part.
    pub open spec fn whole_magnitude(self) -> int {
        if self.scale() >= 0 {
            self.significand() * pow2(self.scale() as nat)
        } else {
            self.significand() / (pow2((-self.scale()) as nat) as int)
        }
    }

    /// The number truncated toward zero.
    pub open spec fn whole(self) -> Whole {
        if self.exponent() == 2047 {
            if self.fraction() == 0 {
                Whole::Infinite { negative: self.negative() }
            } else {
                Whole::NotANumber
            }
        } else if self.negative() {
            Whole::Finite(-self.whole_magnitude())
        } else {
            Whole::Finite(self.whole_magnitude())
        }
    }

    /// The magnitude without its fractional part, or `None` where that is more than a `u64` holds.
    fn truncate(&self) -> (r: Option<u64>)
        requires
            self.exponent() != 2047,
        ensures
            match r {
                Some(v) => v == self.whole_magnitude(),
                None => self.whole_magnitude() > u64::MAX,
            },
    {
        let exponent: u64 = (self.bits / HIDDEN_BIT) % 2048;
        let fraction: u64 = self.bits % HIDDEN_BIT;
        let significand: u64 = if exponent == 0 {
            fraction
        } else {
            HIDDEN_BIT + fraction
        };
        proof {
            lemma2_to64();
            lemma2_to64_rest();
        }
        if exponent >= 1075 {
            let scale: u64 = exponent - 1075;
            if scale > 11 {
                proof {
                    lemma_pow2_at_least(12, scale as nat);
                    lemma_mul_inequality(4096, pow2(scale as nat) as int, significand as int);
                    assert(significand * pow2(scale as nat) == pow2(scale as nat) * significand)
                        by (nonlinear_arith);
                    assert(4096 * significand > u64::MAX);
                }
                None
            } else {
                let factor: u64 = two_to_the(scale);
                proof {
                    lemma_pow2_at_least(scale as nat, 11);
                    assert(significand * factor <= 0x1f_ffff_ffff_ffff * 2048) by (nonlinear_arith)
                        requires
                            significand <= 0x1f_ffff_ffff_ffff,
                            factor <= 2048,
                    ;
                }
                Some(significand * factor)
            }
        } else {
            let scale: u64 = if exponent == 0 {
                1074
            } else {
                1075 - exponent
            };
            if scale > 52 {
                proof {
                    lemma_pow2_at_least(53, scale as nat);
                    assert(significand as int / (pow2(scale as nat) as int) == 0)
                        by (nonlinear_arith)
                        requires
                            0 <= significand < pow2(scale as nat),
                    ;
                }
                Some(0)
            } else {
                let divisor: u64 = two_to_the(scale);
                Some(significand / divisor)
            }
        }
    }

    /// The number as a `usize`: its fractional part is dropped, a number outside the range becomes
    /// the nearer bound, and what is not a number becomes zero.
    pub fn as_usize(&self) -> (r: usize)
        ensures
            r == saturate(self.whole(), 0, usize::MAX as int),
    {
        let exponent: u64 = (self.bits / HIDDEN_BIT) % 2048;
        if exponent == 2047 {
            if self.bits % HIDDEN_BIT == 0 && self.bits < SIGN_BIT {
                usize::MAX
            } else {
                0
            }
        } else {
            let magnitude: Option<u64> = self.truncate();
            proof {
                self.lemma_whole_magnitude_is_natural();
            }
            if self.bits >= SIGN_BIT {
                0
            } else {
                match magnitude {
                    Some(v) => if v > usize::MAX as u64 {
                        usize::MAX
                    } else {
                        v as usize
                    },
                    None => usize::MAX,
                }
            }
        }
    }

    /// The number as an `i64`: its fractional part is dropped, a number outside the range becomes
    /// the nearer bound, and what is not a number becomes zero.
    pub fn as_i64(&self) -> (r: i64)
        ensures
            r == saturate(self.whole(), i64::MIN as int, i64::MAX as int),
    {
        let exponent: u64 = (self.bits / HIDDEN_BIT) % 2048;
        let negative: bool = self.bits >= SIGN_BIT;
        if exponent == 2047 {
            if self.bits % HIDDEN_BIT != 0 {
                0
            } else if negative {
                i64::MIN
            } else {
                i64::MAX
            }
        } else {
            let magnitude: Option<u64> = self.truncate();
            proof {
                self.lemma_whole_magnitude_is_natural();
            }
            match magnitude {
                Some(v) => if negative {
                    if v >= SIGN_BIT {
                        i64::MIN
                    } else {
                        -(v as i64)
                    }
                } else {
                    if v >= SIGN_BIT {
                        i64::MAX
                    } else {
                        v as i64
                    }
                },
                None => if negative {
                    i64::MIN
                } else {
                    i64::MAX
                },
            }
        }
    }

    proof fn lemma_whole_magnitude_is_natural(self)
        ensures
            self.whole_magnitude() >= 0,
    {
        if self.scale() >= 0 {
            lemma_pow2_pos(self.scale() as nat);
            assert(self.significand() * pow2(self.scale() as nat) >= 0) by (nonlinear_arith)
                requires
                    self.significand() >= 0,
            ;
        } else {
            lemma_pow2_pos((-self.scale()) as nat);
            assert(self.significand() / (pow2((-self.scale()) as nat) as int) >= 0)
                by (nonlinear_arith)
                requires
                    self.significand() >= 0,
                    pow2((-self.scale()) as nat) > 0,
            ;
        }
    }
}

/// Powers of two grow with the exponent.
proof fn lemma_pow2_at_least(low: nat, high: nat)
    requires
        low <= high,
    ensures
        pow2(low) <= pow2(high),
{
    if low < high {
        lemma_pow2_strictly_increases(low, high);
    }
}

/// Two to the power of `exponent`.
fn two_to_the(exponent: u64) -> (r: u64)
    requires
        exponent < 64,
    ensures
        r == pow2(exponent as nat),
{
    let mut power: u64 = 1;
    let mut i: u64 = 0;
    proof {
        lemma2_to64();
    }
    while i < exponent
        invariant
            i <= exponent < 64,
            power == pow2(i as nat),
        decreases exponent - i,
    {
        proof {
            lemma2_to64_rest();
            lemma_pow2_unfold((i + 1) as nat);
            lemma_pow2_at_least((i + 1) as nat, 63);
        }
        power = power * 2;
        i = i + 1;
    }
    power
}

/// How far apart the binary64 numbers are at the magnitude `n`, and at least one: the least power
/// of two that leaves fewer than 54 bits of `n` above it.
pub open spec fn spacing(n: nat) -> nat
    decreases n,
{
    if n < EXACT_LIMIT {
        1
    } else {
        2 * spacing(n / 2)
    }
}

/// The magnitude `n` rounded to a multiple of its spacing, to the even multiple where two are
/// equally near.
pub open spec fn round_magnitude(n: nat) -> int {
    let unit: int = spacing(n) as int;
    let below: int = n as int / unit;
    let rest: int = n as int % unit;
    if 2 * rest > unit || (2 * rest == unit && below % 2 == 1) {
        (below + 1) * unit
    } else {
        below * unit
    }
}

/// The value of the binary64 number to which the whole number `n` is converted.
pub open spec fn nearest(n: int) -> int {
    if n < 0 {
        -round_magnitude((-n) as nat)
    } else {
        round_magnitude(n as nat)
    }
}

/// `significand` times a power of two.
pub open spec fn scaled(significand: nat, scale: nat) -> int {
    significand as int * pow2(scale) as int
}

/// Whether some binary64 number has the value `x`: the magnitude is a whole number of at most 53
/// bits times a power of two.
pub open spec fn is_double(x: int) -> bool {
    exists|significand: nat, scale: nat|
        significand < EXACT_LIMIT && #[trigger] scaled(significand, scale) == if x < 0 {
            -x
        } else {
            x
        }
}

pub open spec fn distance(a: int, b: int) -> int {
    if a < b {
        b - a
    } else {
        a - b
    }
}

/// The spacing is a power of two, and it divides a large magnitude into a 53-bit multiple and a
/// rest.
proof fn lemma_spacing(n: nat) -> (scale: nat)
    ensures
        spacing(n) == pow2(scale),
        spacing(n) > 0,
        n / spacing(n) < EXACT_LIMIT,
        n >= EXACT_LIMIT ==> scale > 0 && n / spacing(n) >= HIDDEN_BIT,
    decreases n,
{
    lemma2_to64();
    if n < EXACT_LIMIT {
        0
    } else {
        let half: nat = n / 2;
        let inner: nat = lemma_spacing(half);
        lemma_div_denominator(n as int, 2, spacing(half) as int);
        lemma_pow2_unfold(inner + 1);
        inner + 1
    }
}

/// The whole number that `n` becomes as a binary64 number.
pub fn nearest_double(n: i128) -> (r: i128)
    requires
        -ROUNDING_LIMIT <= n <= ROUNDING_LIMIT,
    ensures
        r == nearest(n as int),
{
    let negative: bool = n < 0;
    let magnitude: u128 = if negative {
        (-n) as u128
    } else {
        n as u128
    };
    let mut unit: u128 = 1;
    let mut below: u128 = magnitude;
    while below >= EXACT_LIMIT as u128
        invariant
            magnitude <= ROUNDING_LIMIT,
            spacing(magnitude as nat) == unit * spacing(below as nat),
            below == magnitude / unit,
            0 < unit,
            unit * below <= magnitude,
        decreases below,
    {
        proof {
            assert(unit * 2 <= unit * below) by (nonlinear_arith)
                requires
                    below >= 2,
            ;
            lemma_div_denominator(magnitude as int, unit as int, 2);
            let rest: nat = spacing((below / 2) as nat);
            assert(unit * (2 * rest) == (unit * 2) * rest) by (nonlinear_arith);
            assert((unit * 2) * (below / 2) <= unit * below) by (nonlinear_arith)
                requires
                    2 * (below / 2) <= below,
            ;
        }
        unit = unit * 2;
        below = below / 2;
    }
    let rest: u128 = magnitude % unit;
    proof {
        lemma_fundamental_div_mod(magnitude as int, unit as int);
        assert(unit * below == below * unit) by (nonlinear_arith);
        assert((below + 1) * unit == below * unit + unit) by (nonlinear_arith);
        assert(spacing(below as nat) == 1);
        assert(spacing(magnitude as nat) == unit) by (nonlinear_arith)
            requires
                spacing(magnitude as nat) == unit * spacing(below as nat),
                spacing(below as nat) == 1,
        ;
        assert(unit <= magnitude || unit == 1) by {
            lemma_spacing(magnitude as nat);
            if magnitude >= EXACT_LIMIT {
                assert(unit <= unit * below) by (nonlinear_arith)
                    requires
                        below >= 1,
                ;
            }
        }
    }
    let rounded: u128 = if 2 * rest > unit || (2 * rest == unit && below % 2 == 1) {
        (below + 1) * unit
    } else {
        below * unit
    };
    if negative {
        -(rounded as i128)
    } else {
        rounded as i128
    }
}

/// Rounding at most doubles a magnitude.
pub(crate) proof fn lemma_nearest_is_bounded(n: int)
    ensures
        n >= 0 ==> 0 <= nearest(n) <= 2 * n,
        n < 0 ==> 2 * n <= nearest(n) <= 0,
{
    let magnitude: nat = if n < 0 {
        (-n) as nat
    } else {
        n as nat
    };
    let scale: nat = lemma_spacing(magnitude);
    let unit: int = spacing(magnitude) as int;
    let below: int = magnitude as int / unit;
    lemma_fundamental_div_mod(magnitude as int, unit);
    assert(unit * below == below * unit) by (nonlinear_arith);
    assert((below + 1) * unit == below * unit + unit) by (nonlinear_arith);
    assert(below * unit >= 0) by (nonlinear_arith)
        requires
            below >= 0,
            unit >= 0,
    ;
    if magnitude >= EXACT_LIMIT {
        assert(unit <= below * unit) by (nonlinear_arith)
            requires
                below >= 1,
                unit >= 0,
        ;
    }
}

/// A whole number of at most 53 bits is converted without loss.
pub proof fn law_small_integers_are_exact(n: int)
    requires
        -EXACT_LIMIT <= n <= EXACT_LIMIT,
    ensures
        nearest(n) == n,
{
    let magnitude: nat = if n < 0 {
        (-n) as nat
    } else {
        n as nat
    };
    if magnitude == EXACT_LIMIT {
        assert(spacing(magnitude) == 2) by {
            assert(spacing(magnitude / 2) == 1);
        }
    } else {
        assert(spacing(magnitude) == 1);
    }
}

proof fn lemma_round_magnitude_is_double(n: nat)
    ensures
        round_magnitude(n) >= 0,
        is_double(round_magnitude(n)),
{
    lemma2_to64();
    let scale: nat = lemma_spacing(n);
    let unit: nat = spacing(n);
    let below: nat = n / unit;
    assert(below * unit >= 0) by (nonlinear_arith);
    assert((below + 1) * unit >= 0) by (nonlinear_arith);
    if round_magnitude(n) == below * unit {
        assert(scaled(below, scale) == below * unit);
    } else if below + 1 < EXACT_LIMIT {
        assert(scaled(below + 1, scale) == (below + 1) * unit);
    } else {
        lemma_pow2_unfold(scale + 1);
        assert(HIDDEN_BIT * (2 * unit) == (2 * HIDDEN_BIT) * unit) by (nonlinear_arith);
        assert(scaled(HIDDEN_BIT as nat, scale + 1) == (below + 1) * unit);
    }
}

/// Two neighbouring multiples of the spacing have no binary64 number between them.
proof fn lemma_no_double_between(n: nat, significand: nat, scale: nat)
    requires
        significand < EXACT_LIMIT,
    ensures
        scaled(significand, scale) <= (n / spacing(n)) * spacing(n) || scaled(significand, scale) >= (
        n / spacing(n) + 1) * spacing(n),
{
    lemma2_to64();
    let exponent: nat = lemma_spacing(n);
    let unit: nat = spacing(n);
    let below: nat = n / unit;
    let x: int = scaled(significand, scale);
    if scale >= exponent {
        let up: nat = (scale - exponent) as nat;
        lemma_pow2_adds(up, exponent);
        let multiple: nat = significand * pow2(up);
        lemma_mul_is_associative(significand as int, pow2(up) as int, unit as int);
        assert(x == multiple * unit);
        if multiple <= below {
            lemma_mul_inequality(multiple as int, below as int, unit as int);
        } else {
            lemma_mul_inequality(below as int + 1, multiple as int, unit as int);
        }
    } else {
        // The spacing is more than one here, so `below` has its leading bit.
        lemma_pow2_at_least(scale, (exponent - 1) as nat);
        lemma_pow2_unfold(exponent);
        let half: nat = pow2((exponent - 1) as nat);
        lemma_mul_inequality(pow2(scale) as int, half as int, significand as int);
        lemma_mul_inequality(significand as int, EXACT_LIMIT as int, half as int);
        assert(significand * pow2(scale) == pow2(scale) * significand) by (nonlinear_arith);
        assert(significand * half == half * significand) by (nonlinear_arith);
        assert(EXACT_LIMIT * half == HIDDEN_BIT * unit) by (nonlinear_arith)
            requires
                unit == 2 * half,
                EXACT_LIMIT == 2 * HIDDEN_BIT,
        ;
        if n < EXACT_LIMIT {
            assert(spacing(n) == 1);
            lemma_pow2_at_least(1, exponent);
        }
        lemma_mul_inequality(HIDDEN_BIT as int, below as int, unit as int);
    }
}

proof fn lemma_round_magnitude_is_nearest(n: nat, x: int)
    requires
        is_double(x),
    ensures
        distance(n as int, round_magnitude(n)) <= distance(n as int, x),
        round_magnitude(n) >= 0,
{
    let magnitude: int = if x < 0 {
        -x
    } else {
        x
    };
    let (significand, scale) = choose|significand: nat, scale: nat|
        significand < EXACT_LIMIT && #[trigger] scaled(significand, scale) == magnitude;
    lemma_no_double_between(n, significand, scale);
    let exponent: nat = lemma_spacing(n);
    let unit: int = spacing(n) as int;
    let below: int = n as int / unit;
    lemma_fundamental_div_mod(n as int, unit);
    assert(unit * below == below * unit) by (nonlinear_arith);
    assert((below + 1) * unit == below * unit + unit) by (nonlinear_arith);
    assert(below * unit >= 0) by (nonlinear_arith)
        requires
            below >= 0,
            unit >= 0,
    ;
}

/// Conversion gives a binary64 number, and none is nearer to the whole number converted.
pub proof fn law_conversion_is_nearest(n: int, x: int)
    requires
        is_double(x),
    ensures
        is_double(nearest(n)),
        distance(n, nearest(n)) <= distance(n, x),
{
    if n < 0 {
        lemma_round_magnitude_is_double((-n) as nat);
        assert(is_double(-x)) by {
            let magnitude: int = if x < 0 {
                -x
            } else {
                x
            };
            let (significand, scale) = choose|significand: nat, scale: nat|
                significand < EXACT_LIMIT && #[trigger] scaled(significand, scale) == magnitude;
            assert(scaled(significand, scale) == magnitude);
        }
        lemma_round_magnitude_is_nearest((-n) as nat, -x);
    } else {
        lemma_round_magnitude_is_double(n as nat);
        lemma_round_magnitude_is_nearest(n as nat, x);
    }
}

/// Whether `r` is the binary64 number that the whole number `n` is rounded to: no other is nearer,
/// and where another is as near, `r` is the even one of the two, a multiple of twice the gap between
/// them.
pub open spec fn rounds_to(n: int, r: int) -> bool {
    &&& is_double(r)
    &&& forall|x: int| #[trigger]
        is_double(x) ==> {
            &&& distance(n, r) <= distance(n, x)
            &&& x != r && distance(n, r) == distance(n, x) ==> r % (2 * distance(r, x)) == 0
        }
}

proof fn lemma_tie_goes_to_the_even_one(n: nat, x: int)
    requires
        is_double(x),
        x != round_magnitude(n),
        distance(n as int, round_magnitude(n)) == distance(n as int, x),
    ensures
        distance(round_magnitude(n), x) > 0,
        round_magnitude(n) % (2 * distance(round_magnitude(n), x)) == 0,
        (-round_magnitude(n)) % (2 * distance(round_magnitude(n), x)) == 0,
{
    let magnitude: int = if x < 0 {
        -x
    } else {
        x
    };
    let (significand, scale) = choose|significand: nat, scale: nat|
        significand < EXACT_LIMIT && #[trigger] scaled(significand, scale) == magnitude;
    lemma_no_double_between(n, significand, scale);
    let exponent: nat = lemma_spacing(n);
    let unit: int = spacing(n) as int;
    let below: int = n as int / unit;
    let rounded: int = round_magnitude(n);
    lemma_fundamental_div_mod(n as int, unit);
    assert(unit * below == below * unit) by (nonlinear_arith);
    assert((below + 1) * unit == below * unit + unit) by (nonlinear_arith);
    assert(below * unit >= 0) by (nonlinear_arith)
        requires
            below >= 0,
            unit >= 0,
    ;
    assert(x >= 0);
    assert(distance(rounded, x) == unit);
    if rounded == below * unit {
        assert(below % 2 == 0);
        let half: int = below / 2;
        assert(rounded == half * (2 * unit)) by (nonlinear_arith)
            requires
                rounded == below * unit,
                below == 2 * half,
        ;
        lemma_mod_multiples_basic(half, 2 * unit);
        assert(-rounded == (-half) * (2 * unit)) by (nonlinear_arith)
            requires
                rounded == half * (2 * unit),
        ;
        lemma_mod_multiples_basic(-half, 2 * unit);
    } else {
        assert(below % 2 == 1);
        let half: int = (below + 1) / 2;
        assert(rounded == half * (2 * unit)) by (nonlinear_arith)
            requires
                rounded == (below + 1) * unit,
                below + 1 == 2 * half,
        ;
        lemma_mod_multiples_basic(half, 2 * unit);
        assert(-rounded == (-half) * (2 * unit)) by (nonlinear_arith)
            requires
                rounded == half * (2 * unit),
        ;
        lemma_mod_multiples_basic(-half, 2 * unit);
    }
}

/// Conversion rounds.
pub(crate) proof fn lemma_nearest_rounds(n: int)
    ensures
        rounds_to(n, nearest(n)),
{
    lemma_zero_is_double();
    law_conversion_is_nearest(n, 0);
    assert forall|x: int| #[trigger] is_double(x) implies {
        &&& distance(n, nearest(n)) <= distance(n, x)
        &&& x != nearest(n) && distance(n, nearest(n)) == distance(n, x) ==> nearest(n) % (2
            * distance(nearest(n), x)) == 0
    } by {
        law_conversion_is_nearest(n, x);
        if x != nearest(n) && distance(n, nearest(n)) == distance(n, x) {
            if n < 0 {
                lemma_negated_double(x);
                lemma_tie_goes_to_the_even_one((-n) as nat, -x);
            } else {
                lemma_tie_goes_to_the_even_one(n as nat, x);
            }
        }
    }
}

proof fn lemma_zero_is_double()
    ensures
        is_double(0),
{
    assert(scaled(0, 0) == 0) by (nonlinear_arith);
}

proof fn lemma_negated_double(x: int)
    requires
        is_double(x),
    ensures
        is_double(-x),
{
    let magnitude: int = if x < 0 {
        -x
    } else {
        x
    };
    let (significand, scale) = choose|significand: nat, scale: nat|
        significand < EXACT_LIMIT && #[trigger] scaled(significand, scale) == magnitude;
    assert(scaled(significand, scale) == magnitude);
}

/// Whole numbers are converted as binary64 rounds them, to the nearest number and to the even one of
/// two, and a binary64 number has 53 bits.
pub proof fn law_conversion_rounds_to_even(n: i128, r: i128)
    requires
        call_ensures(nearest_double, (n,), r),
    ensures
        rounds_to(n as int, r as int),
        EXACT_LIMIT == 0x20_0000_0000_0000,
        -0x20_0000_0000_0000 <= n <= 0x20_0000_0000_0000 ==> r == n,
{
    lemma_nearest_rounds(n as int);
    if -0x20_0000_0000_0000 <= n <= 0x20_0000_0000_0000 {
        law_small_integers_are_exact(n as int);
    }
}

/// Whether `whole` is what is left of the finite number with this exponent field and this fraction
/// field when its sign and its fractional part are dropped.
pub open spec fn is_whole_part(exponent: int, fraction: int, whole: int) -> bool {
    let significand: int = if exponent == 0 {
        fraction
    } else {
        0x10_0000_0000_0000 + fraction
    };
    let scale: int = if exponent == 0 {
        -1074
    } else {
        exponent - 1075
    };
    &&& 0 <= whole
    &&& if scale >= 0 {
        whole == significand * pow2(scale as nat)
    } else {
        whole * pow2((-scale) as nat) <= significand < (whole + 1) * pow2((-scale) as nat)
    }
}

/// A number becomes an integer by dropping its fractional part. What lies outside the range of the
/// integers becomes the nearer end of it, infinities too, and what is not a number becomes zero. The
/// number is given by its sign, its exponent field and its fraction field.
pub proof fn law_number_becomes_an_integer(
    number: Number,
    negative: bool,
    exponent: int,
    fraction: int,
    whole: int,
    unsigned: usize,
    signed: i64,
)
    requires
        0 <= exponent < 2048,
        0 <= fraction < 0x10_0000_0000_0000,
        number.bits == (if negative {
            0x8000_0000_0000_0000int
        } else {
            0
        }) + exponent * 0x10_0000_0000_0000 + fraction,
        exponent < 2047 ==> is_whole_part(exponent, fraction, whole),
        call_ensures(Number::as_usize, (&number,), unsigned),
        call_ensures(Number::as_i64, (&number,), signed),
    ensures
        exponent == 2047 && fraction != 0 ==> unsigned == 0 && signed == 0,
        exponent == 2047 && fraction == 0 && !negative ==> unsigned == usize::MAX && signed
            == i64::MAX,
        exponent == 2047 && fraction == 0 && negative ==> unsigned == 0 && signed == i64::MIN,
        exponent < 2047 && !negative ==> {
            &&& unsigned == if whole <= usize::MAX {
                whole
            } else {
                usize::MAX as int
            }
            &&& signed == if whole <= i64::MAX {
                whole
            } else {
                i64::MAX as int
            }
        },
        exponent < 2047 && negative ==> {
            &&& unsigned == 0
            &&& signed == if -whole >= i64::MIN {
                -whole
            } else {
                i64::MIN as int
            }
        },
{
    assert(number.exponent() == exponent);
    assert(number.fraction() == fraction);
    assert(number.negative() == negative);
    if exponent < 2047 {
        if number.scale() < 0 {
            let divisor: int = pow2((-number.scale()) as nat) as int;
            lemma_pow2_pos((-number.scale()) as nat);
            let significand: int = number.significand();
            let rest: int = significand - whole * divisor;
            assert(significand == whole * divisor + rest && 0 <= rest < divisor) by (nonlinear_arith)
                requires
                    rest == significand - whole * divisor,
                    whole * divisor <= significand < (whole + 1) * divisor,
            ;
            lemma_fundamental_div_mod_converse(significand, divisor, whole, rest);
        }
        assert(number.whole_magnitude() == whole);
    }
}

} // verus!
