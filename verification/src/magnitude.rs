//! Magnitudes: non-negative loudness values, held exactly.
//!
//! A magnitude is the number `mantissa * 2^shift` counted in steps of
//! `2^-149`, the smallest positive single-precision value. Every finite,
//! non-negative single-precision number is such a count, so a magnitude
//! carries one without rounding, and all later comparisons are exact.

use vstd::prelude::*;
use vstd::arithmetic::power2::pow2;
use crate::dyadic::{balance, weigh, Balance};

verus! {

/// A non-negative magnitude, `mantissa * 2^shift` steps of `2^-149`.
#[derive(Debug, Clone, Copy, PartialEq, Eq, Structural)]
pub struct Magnitude {
    pub mantissa: u32,
    pub shift: u8,
}

/// The exponent field of a single-precision bit pattern.
pub open spec fn bits_exponent(bits: u32) -> nat {
    (bits as nat / 0x80_0000) % 256
}

/// The fraction field of a single-precision bit pattern.
pub open spec fn bits_fraction(bits: u32) -> nat {
    bits as nat % 0x80_0000
}

/// What a single-precision bit pattern denotes, where that is a magnitude:
/// `None` for an infinity or a NaN (exponent field 255) and for a negative
/// number; zero of either sign is the magnitude zero. A subnormal pattern
/// counts its fraction in steps; a normal one has the hidden bit added and is
/// raised by its exponent field less one.
pub open spec fn decoded(bits: u32) -> Option<Magnitude> {
    let e = bits_exponent(bits);
    let f = bits_fraction(bits);
    if e == 255 || (bits >= 0x8000_0000 && bits != 0x8000_0000) {
        None
    } else if e == 0 {
        Some(Magnitude { mantissa: f as u32, shift: 0 })
    } else {
        Some(Magnitude { mantissa: (0x80_0000 + f) as u32, shift: (e - 1) as u8 })
    }
}

/// The largest count of steps among the magnitudes; zero where there is none.
pub open spec fn peak_units(s: Seq<Magnitude>) -> nat
    decreases s.len(),
{
    if s.len() == 0 {
        0
    } else {
        let before = peak_units(s.drop_last());
        if s.last().units() >= before {
            s.last().units()
        } else {
            before
        }
    }
}

/// No magnitude of a sequence exceeds its peak.
pub proof fn lemma_peak_bounds(s: Seq<Magnitude>, i: int)
    requires
        0 <= i < s.len(),
    ensures
        s[i].units() <= peak_units(s),
    decreases s.len(),
{
    if i < s.len() - 1 {
        lemma_peak_bounds(s.drop_last(), i);
    }
}

/// The peak of a non-empty sequence is one of its magnitudes.
pub proof fn lemma_peak_attained(s: Seq<Magnitude>) -> (i: int)
    requires
        s.len() > 0,
    ensures
        0 <= i < s.len(),
        s[i].units() == peak_units(s),
    decreases s.len(),
{
    let before = peak_units(s.drop_last());
    if s.last().units() >= before {
        s.len() - 1
    } else {
        lemma_peak_attained(s.drop_last())
    }
}

impl Magnitude {
    /// The magnitude as a count of steps of `2^-149`.
    pub open spec fn units(self) -> nat {
        self.mantissa as nat * pow2(self.shift as nat)
    }

    /// The magnitude that a single-precision bit pattern denotes, if it
    /// denotes a finite number that is not negative.
    pub fn from_bits(bits: u32) -> (r: Option<Magnitude>)
        ensures
            r == decoded(bits),
    {
        let negative = bits >= 0x8000_0000;
        let e: u32 = (bits / 0x80_0000) % 256;
        let f: u32 = bits % 0x80_0000;
        if e == 255 || (negative && bits != 0x8000_0000) {
            None
        } else if e == 0 {
            Some(Magnitude { mantissa: f, shift: 0 })
        } else {
            Some(Magnitude { mantissa: 0x80_0000 + f, shift: (e - 1) as u8 })
        }
    }

    /// How this magnitude stands to another.
    pub fn weigh_against(self, other: Magnitude) -> (r: Balance)
        ensures
            r == balance(self.units() as int, other.units() as int),
    {
        weigh(self.mantissa as u128, self.shift as u32, other.mantissa as u128, other.shift as u32)
    }
}

/// The largest of the magnitudes; of several equal ones the last. `None` where
/// there is no magnitude at all.
pub fn loudest(magnitudes: &[Magnitude]) -> (r: Option<Magnitude>)
    ensures
        r is None <==> magnitudes@.len() == 0,
        r matches Some(m) ==> m.units() == peak_units(magnitudes@) && exists|i: int|
            0 <= i < magnitudes@.len() && magnitudes@[i] == m && forall|j: int|
                i < j < magnitudes@.len() ==> (#[trigger] magnitudes@[j]).units() < m.units(),
{
    if magnitudes.len() == 0 {
        return None;
    }
    let mut best = magnitudes[0];
    let mut k: usize = 1;
    let ghost mut at: int = 0;
    proof {
        let first = magnitudes@.subrange(0, 1);
        assert(first.drop_last() =~= Seq::<Magnitude>::empty());
        assert(peak_units(first.drop_last()) == 0);
        assert(first.last() == magnitudes@[0]);
    }
    while k < magnitudes.len()
        invariant
            1 <= k <= magnitudes@.len(),
            0 <= at < k,
            magnitudes@[at] == best,
            best.units() == peak_units(magnitudes@.subrange(0, k as int)),
            forall|j: int| at < j < k ==> (#[trigger] magnitudes@[j]).units() < best.units(),
        decreases magnitudes@.len() - k,
    {
        let next = magnitudes[k];
        assert(magnitudes@.subrange(0, k + 1).drop_last() =~= magnitudes@.subrange(0, k as int));
        match next.weigh_against(best) {
            Balance::Below => {},
            _ => {
                best = next;
                proof {
                    at = k as int;
                }
            },
        }
        k = k + 1;
    }
    assert(magnitudes@.subrange(0, k as int) =~= magnitudes@);
    Some(best)
}

} // verus!
