//! A double-precision number held as its IEEE 754 bit pattern.
//!
//! The library never computes with such numbers; it carries them from a
//! command to the device and back, compares them, and cuts them down to an
//! integer where a field takes one. All of that is integer work on the bits.

use vstd::prelude::*;
use vstd::arithmetic::power2::{pow2, lemma2_to64, lemma2_to64_rest, lemma_pow2_strictly_increases, lemma_pow2_pos};
use vstd::arithmetic::div_mod::{lemma_div_by_multiple, lemma_fundamental_div_mod_converse};
use vstd::arithmetic::power2::lemma_pow2_adds;
use vstd::bits::{lemma_u64_shl_is_mul, lemma_u64_shr_is_div};

verus! {

/// A double-precision floating-point number, stored as its 64 bits: one sign
/// bit, eleven exponent bits, fifty-two fraction bits.
#[derive(Debug, Clone, Copy)]
pub struct Float {
    pub bits: u64,
}

impl Float {
    /// The 64 bits of the number.
    pub open spec fn bits(self) -> u64 {
        self.bits
    }

    /// The sign bit is set.
    pub open spec fn negative(self) -> bool {
        self.bits() >= 0x8000_0000_0000_0000
    }

    /// The biased exponent field.
    pub open spec fn exponent(self) -> nat {
        ((self.bits() as nat) / 0x10_0000_0000_0000) % 0x800
    }

    /// The fraction field.
    pub open spec fn fraction(self) -> nat {
        (self.bits() as nat) % 0x10_0000_0000_0000
    }

    /// The number is not a number.
    pub open spec fn is_nan(self) -> bool {
        self.exponent() == 0x7ff && self.fraction() != 0
    }

    /// The number is zero, of either sign.
    pub open spec fn is_zero(self) -> bool {
        self.exponent() == 0 && self.fraction() == 0
    }

    /// The whole part of the number's magnitude. For an infinity this is the
    /// value its exponent would stand for, which is beyond every machine
    /// integer.
    pub open spec fn whole(self) -> nat {
        let e = self.exponent();
        let m = self.fraction() + 0x10_0000_0000_0000;
        if e < 1023 {
            0
        } else if e >= 1075 {
            m * pow2((e - 1075) as nat)
        } else {
            m / pow2((1075 - e) as nat)
        }
    }

    /// The number cut down to an integer: the fraction is dropped, a value
    /// beyond the range of `isize` becomes the nearest end of that range,
    /// and not-a-number becomes zero.
    pub open spec fn truncated(self) -> int {
        if self.is_nan() {
            0
        } else if self.negative() {
            if self.whole() > -(isize::MIN as int) {
                isize::MIN as int
            } else {
                -(self.whole() as int)
            }
        } else {
            if self.whole() > isize::MAX as int {
                isize::MAX as int
            } else {
                self.whole() as int
            }
        }
    }

    /// The number with the given bits.
    pub fn from_bits(bits: u64) -> (r: Float)
        ensures
            r.bits() == bits,
    {
        Float { bits }
    }

    /// The bits of the number.
    pub fn to_bits(self) -> (r: u64)
        ensures
            r == self.bits(),
    {
        self.bits
    }

    /// Cuts the number down to an integer, toward zero.
    pub fn truncate(self) -> (r: isize)
        ensures
            r == self.truncated(),
    {
        let bits = self.bits;
        let e: u64 = (bits >> 52) & 0x7ff;
        let f: u64 = bits & 0xf_ffff_ffff_ffff;
        let neg: bool = (bits >> 63) == 1;
        proof {
            assert(((bits >> 52) & 0x7ff) == (bits / 0x10_0000_0000_0000) % 0x800) by (bit_vector);
            assert((bits & 0xf_ffff_ffff_ffff) == bits % 0x10_0000_0000_0000) by (bit_vector);
            assert(((bits >> 63) == 1) == (bits >= 0x8000_0000_0000_0000)) by (bit_vector);
            assert(e == self.exponent());
            assert(f == self.fraction());
            assert(neg == self.negative());
            lemma2_to64();
            lemma2_to64_rest();
        }
        if e == 0x7ff && f != 0 {
            return 0;
        }
        if e < 1023 {
            return 0;
        }
        let m: u64 = f | 0x10_0000_0000_0000;
        assert(m == f + 0x10_0000_0000_0000) by (bit_vector)
            requires
                m == f | 0x10_0000_0000_0000,
                f < 0x10_0000_0000_0000,
        ;
        if e >= 1086 {
            proof {
                let k = (e - 1075) as nat;
                if k > 11 {
                    lemma_pow2_strictly_increases(11, k);
                }
                assert(pow2(11) <= pow2(k));
                assert(m * pow2(k) >= 0x10_0000_0000_0000 * pow2(11)) by (nonlinear_arith)
                    requires
                        m >= 0x10_0000_0000_0000,
                        pow2(k) >= pow2(11),
                ;
                assert(self.whole() >= 0x8000_0000_0000_0000);
            }
            return if neg {
                isize::MIN
            } else {
                isize::MAX
            };
        }
        let mag: u64 = if e >= 1075 {
            let k: u64 = e - 1075;
            proof {
                if k < 10 {
                    lemma_pow2_strictly_increases(k as nat, 10);
                }
                assert(pow2(k as nat) <= pow2(10));
                assert(m * pow2(k as nat) <= 0x1f_ffff_ffff_ffff * 1024) by (nonlinear_arith)
                    requires
                        m <= 0x1f_ffff_ffff_ffff,
                        pow2(k as nat) <= 1024,
                ;
                lemma_u64_shl_is_mul(m, k);
            }
            m << k
        } else {
            let k: u64 = 1075 - e;
            proof {
                lemma_u64_shr_is_div(m, k);
            }
            m >> k
        };
        assert(mag == self.whole());
        assert(mag < 0x8000_0000_0000_0000) by {
            if e >= 1075 {
                assert(mag <= 0x1f_ffff_ffff_ffff * 1024);
            } else {
                lemma_pow2_pos((1075 - e) as nat);
                assert((m as nat) / pow2((1075 - e) as nat) <= m) by (nonlinear_arith)
                    requires
                        pow2((1075 - e) as nat) > 0,
                ;
            }
        }
        let lim: u64 = isize::MAX as u64;
        if neg {
            if mag > lim {
                if mag == lim + 1 {
                    assert(-(mag as int) == isize::MIN as int);
                }
                isize::MIN
            } else {
                -(mag as isize)
            }
        } else {
            if mag > lim {
                isize::MAX
            } else {
                mag as isize
            }
        }
    }
}

impl Float {
    /// Equality of the numbers, as the standard defines it: not-a-number
    /// equals nothing, and the two zeros equal each other.
    pub open spec fn same_number(self, other: Float) -> bool {
        &&& !self.is_nan()
        &&& !other.is_nan()
        &&& (self.bits() == other.bits() || (self.is_zero() && other.is_zero()))
    }

    /// Whether the number is not a number.
    pub fn check_nan(self) -> (r: bool)
        ensures
            r == self.is_nan(),
    {
        let bits = self.bits;
        assert(((bits >> 52) & 0x7ff) == (bits / 0x10_0000_0000_0000) % 0x800) by (bit_vector);
        assert((bits & 0xf_ffff_ffff_ffff) == bits % 0x10_0000_0000_0000) by (bit_vector);
        ((bits >> 52) & 0x7ff) == 0x7ff && (bits & 0xf_ffff_ffff_ffff) != 0
    }

    /// Whether the number is zero, of either sign.
    pub fn check_zero(self) -> (r: bool)
        ensures
            r == self.is_zero(),
    {
        let bits = self.bits;
        assert(((bits >> 52) & 0x7ff) == (bits / 0x10_0000_0000_0000) % 0x800) by (bit_vector);
        assert((bits & 0xf_ffff_ffff_ffff) == bits % 0x10_0000_0000_0000) by (bit_vector);
        ((bits >> 52) & 0x7ff) == 0 && (bits & 0xf_ffff_ffff_ffff) == 0
    }
}

impl PartialEq for Float {
    fn eq(&self, other: &Float) -> (r: bool) {
        if self.check_nan() || other.check_nan() {
            false
        } else {
            self.bits == other.bits || (self.check_zero() && other.check_zero())
        }
    }
}

impl vstd::std_specs::cmp::PartialEqSpecImpl for Float {
    open spec fn obeys_eq_spec() -> bool {
        true
    }

    open spec fn eq_spec(&self, other: &Float) -> bool {
        self.same_number(*other)
    }
}

/// The position of the highest bit that is set in a number: the `p` with
/// `2^p <= a < 2^(p + 1)`. Zero for zero.
pub open spec fn top_bit(a: nat) -> nat
    decreases a,
{
    if a <= 1 {
        0
    } else {
        1 + top_bit(a / 2)
    }
}

/// The highest set bit of a number bounds it from both sides.
pub proof fn lemma_top_bit(a: nat)
    requires
        a >= 1,
    ensures
        pow2(top_bit(a)) <= a < pow2(top_bit(a) + 1),
    decreases a,
{
    lemma2_to64();
    if a > 1 {
        lemma_top_bit(a / 2);
        let p = top_bit(a / 2);
        lemma_pow2_adds(p, 1);
        lemma_pow2_adds(p + 1, 1);
    }
}

/// A number below `2^n` has its highest set bit below `n`.
pub proof fn lemma_top_bit_below(a: nat, n: nat)
    requires
        1 <= a < pow2(n),
    ensures
        top_bit(a) < n,
{
    lemma_top_bit(a);
    if top_bit(a) >= n {
        if top_bit(a) > n {
            lemma_pow2_strictly_increases(n, top_bit(a));
        }
    }
}

/// A number divided by `2^k` and rounded to the nearest integer; where two
/// integers are equally near, to the even one.
pub open spec fn rounded(a: nat, k: nat) -> nat {
    let q = a / pow2(k);
    let r = a % pow2(k);
    if 2 * r > pow2(k) || (2 * r == pow2(k) && q % 2 == 1) {
        q + 1
    } else {
        q
    }
}

impl Float {
    /// The number an integer widens to: the integer itself where a double
    /// can hold it, which it can up to `2^53` in magnitude, and otherwise
    /// the nearest double, the one with the even fraction where two are
    /// equally near.
    pub open spec fn of_int(i: int) -> Float {
        if i == 0 {
            Float { bits: 0 }
        } else {
            let a = (if i < 0 {
                -i
            } else {
                i
            }) as nat;
            let p = top_bit(a);
            let sign: nat = if i < 0 {
                0x8000_0000_0000_0000
            } else {
                0
            };
            let q = if p <= 52 {
                a * pow2((52 - p) as nat)
            } else {
                rounded(a, (p - 52) as nat)
            };
            let exponent = if q == 0x20_0000_0000_0000 {
                1024 + p
            } else {
                1023 + p
            };
            let fraction = if q == 0x20_0000_0000_0000 {
                0
            } else {
                q - 0x10_0000_0000_0000
            };
            Float { bits: (sign + exponent * 0x10_0000_0000_0000 + fraction) as u64 }
        }
    }

    /// Widens an integer to a floating-point number.
    pub fn from_int(i: isize) -> (r: Float)
        ensures
            r == Float::of_int(i as int),
    {
        if i == 0 {
            return Float { bits: 0 };
        }
        let wide: i128 = i as i128;
        let a: u64 = if wide < 0 {
            (-wide) as u64
        } else {
            wide as u64
        };
        proof {
            lemma2_to64();
            lemma2_to64_rest();
            lemma_top_bit(a as nat);
            lemma_top_bit_below(a as nat, 64);
        }
        let mut p: u64 = 0;
        let mut t: u64 = a;
        while t > 1
            invariant
                t >= 1,
                top_bit(a as nat) == p + top_bit(t as nat),
                top_bit(a as nat) < 64,
            decreases t,
        {
            t = t / 2;
            p = p + 1;
        }
        assert(p == top_bit(a as nat));
        let q: u64 = if p <= 52 {
            let k: u64 = 52 - p;
            proof {
                lemma_pow2_adds((p + 1) as nat, k as nat);
                assert(a * pow2(k as nat) < pow2((p + 1) as nat) * pow2(k as nat)) by (nonlinear_arith)
                    requires
                        a < pow2((p + 1) as nat),
                        pow2(k as nat) > 0,
                ;
                lemma_pow2_adds(p as nat, k as nat);
                assert(a * pow2(k as nat) >= pow2(p as nat) * pow2(k as nat)) by (nonlinear_arith)
                    requires
                        a >= pow2(p as nat),
                        pow2(k as nat) > 0,
                ;
                lemma_u64_shl_is_mul(a, k);
            }
            a << k
        } else {
            let k: u64 = p - 52;
            proof {
                lemma_pow2_pos(k as nat);
                if k < 11 {
                    lemma_pow2_strictly_increases(k as nat, 11);
                }
                lemma_u64_shl_is_mul(1, k);
                lemma_pow2_adds(52, k as nat);
                lemma_pow2_adds(53, k as nat);
            }
            let d: u64 = 1u64 << k;
            assert(d == pow2(k as nat));
            let q0: u64 = a / d;
            let r: u64 = a % d;
            assert(0x10_0000_0000_0000 <= q0 < 0x20_0000_0000_0000) by (nonlinear_arith)
                requires
                    q0 == a / d,
                    d > 0,
                    0x10_0000_0000_0000 * d <= a < 0x20_0000_0000_0000 * d,
            ;
            if 2 * r > d || (2 * r == d && q0 % 2 == 1) {
                q0 + 1
            } else {
                q0
            }
        };
        assert(0x10_0000_0000_0000 <= q <= 0x20_0000_0000_0000);
        let (exponent, fraction): (u64, u64) = if q == 0x20_0000_0000_0000 {
            (1024 + p, 0)
        } else {
            (1023 + p, q - 0x10_0000_0000_0000)
        };
        let sign: u64 = if wide < 0 {
            0x8000_0000_0000_0000
        } else {
            0
        };
        Float { bits: sign + exponent * 0x10_0000_0000_0000 + fraction }
    }
}

/// How the fields of a number are read off its bits.
pub proof fn lemma_fields(sign: nat, exponent: nat, fraction: nat)
    requires
        sign == 0 || sign == 0x8000_0000_0000_0000,
        exponent < 0x800,
        fraction < 0x10_0000_0000_0000,
    ensures
        ({
            let x = Float { bits: (sign + exponent * 0x10_0000_0000_0000 + fraction) as u64 };
            &&& x.bits() == sign + exponent * 0x10_0000_0000_0000 + fraction
            &&& x.negative() == (sign != 0)
            &&& x.exponent() == exponent
            &&& x.fraction() == fraction
        }),
{
    let low = exponent * 0x10_0000_0000_0000 + fraction;
    let bits = sign + low;
    assert(low < 0x8000_0000_0000_0000) by (nonlinear_arith)
        requires
            low == exponent * 0x10_0000_0000_0000 + fraction,
            exponent < 0x800,
            fraction < 0x10_0000_0000_0000,
    ;
    let high: int = if sign == 0 {
        exponent as int
    } else {
        exponent as int + 0x800
    };
    assert(bits == high * 0x10_0000_0000_0000 + fraction) by (nonlinear_arith)
        requires
            bits == sign + exponent * 0x10_0000_0000_0000 + fraction,
            high == (if sign == 0 {
                exponent as int
            } else {
                exponent as int + 0x800
            }),
            sign == 0 || sign == 0x8000_0000_0000_0000,
    ;
    lemma_fundamental_div_mod_converse(bits as int, 0x10_0000_0000_0000, high, fraction as int);
}

/// An integer that a double can hold widens to itself: up to `2^53` in
/// magnitude, the number an integer widens to is no not-a-number and cuts
/// down to the same integer again.
pub proof fn widening_is_exact(i: int)
    requires
        -0x20_0000_0000_0000 <= i <= 0x20_0000_0000_0000,
        isize::MIN <= i <= isize::MAX,
    ensures
        !Float::of_int(i).is_nan(),
        Float::of_int(i).truncated() == i,
{
    lemma2_to64();
    lemma2_to64_rest();
    if i == 0 {
        lemma_fields(0, 0, 0);
    } else {
        let a = (if i < 0 {
            -i
        } else {
            i
        }) as nat;
        let p = top_bit(a);
        let sign: nat = if i < 0 {
            0x8000_0000_0000_0000
        } else {
            0
        };
        lemma_top_bit(a);
        if a == 0x20_0000_0000_0000 {
            // The one magnitude above 2^53 - 1: its top bit is bit 53.
            assert(pow2(53) == 0x20_0000_0000_0000) by {
                lemma_pow2_adds(32, 21);
            }
            if p > 53 {
                lemma_pow2_strictly_increases(53, p);
            }
            if p < 53 {
                if p + 1 < 53 {
                    lemma_pow2_strictly_increases(p + 1, 53);
                }
            }
            assert(p == 53);
            assert(a / pow2(1) == 0x10_0000_0000_0000 && a % pow2(1) == 0);
            assert(rounded(a, 1) == 0x10_0000_0000_0000);
            lemma_fields(sign, 1076, 0);
            let x = Float::of_int(i);
            assert(x.whole() == 0x10_0000_0000_0000 * pow2(1));
        } else {
            assert(pow2(53) == 0x20_0000_0000_0000) by {
                lemma_pow2_adds(32, 21);
            }
            lemma_top_bit_below(a, 53);
            let k = (52 - p) as nat;
            let q = a * pow2(k);
            lemma_pow2_adds(p, k);
            lemma_pow2_adds(p + 1, k);
            lemma_pow2_pos(k);
            assert(pow2(52) == 0x10_0000_0000_0000) by {
                lemma_pow2_adds(32, 20);
            }
            assert(q >= pow2(p) * pow2(k)) by (nonlinear_arith)
                requires
                    q == a * pow2(k),
                    a >= pow2(p),
                    pow2(k) > 0,
            ;
            assert(q < pow2(p + 1) * pow2(k)) by (nonlinear_arith)
                requires
                    q == a * pow2(k),
                    a < pow2(p + 1),
                    pow2(k) > 0,
            ;
            lemma_fields(sign, 1023 + p, (q - 0x10_0000_0000_0000) as nat);
            let x = Float::of_int(i);
            assert(x.exponent() == 1023 + p);
            assert(x.fraction() + 0x10_0000_0000_0000 == q);
            if p == 52 {
                assert(pow2(k) == 1);
                assert(q == a) by (nonlinear_arith)
                    requires
                        q == a * pow2(k),
                        pow2(k) == 1,
                ;
                assert(x.whole() == q * pow2(0));
            } else {
                assert((1075 - x.exponent()) as nat == k);
                lemma_div_by_multiple(a as int, pow2(k) as int);
                assert(q / pow2(k) == a) by (nonlinear_arith)
                    requires
                        q == a * pow2(k),
                        ((a * pow2(k)) as int) / (pow2(k) as int) == a,
                ;
            }
            assert(x.whole() == a);
        }
    }
}

} // verus!
