//! Rows as windows on a column's height.
//!
//! Heights are measured in rows. The centerline row covers the first half row
//! of height, and each row beyond it the next whole row. A column's height is
//! an exact ratio, and how far it reaches into a row's window is a ratio again:
//! nothing is rounded on the way to a fullness level.

use vstd::prelude::*;
use vstd::arithmetic::power2::{pow2, lemma_pow2_pos};
use crate::dyadic::{balance, weigh, lemma_balance_scales, Balance};
use crate::magnitude::Magnitude;

verus! {

/// Where the window of a row begins, in half rows above the centerline.
pub open spec fn window_floor(row: nat) -> nat {
    if row == 0 {
        0
    } else {
        (2 * row - 1) as nat
    }
}

/// How tall the window of a row is, in half rows.
pub open spec fn window_span(row: nat) -> nat {
    if row == 0 {
        1
    } else {
        2
    }
}

/// The numerator of the fraction of a row's window that a column of height
/// `numer / denom` fills. It is negative where the column ends below the window.
pub open spec fn fill_numer(numer: nat, denom: nat, row: nat) -> int {
    2 * numer - window_floor(row) * denom
}

/// The denominator of the fraction of a row's window that a column of height
/// `numer / denom` fills.
pub open spec fn fill_denom(denom: nat, row: nat) -> int {
    (window_span(row) * denom) as int
}

/// The height of one column in rows: `column * factor / (2 * base)`.
#[derive(Debug, Clone, Copy)]
pub struct Height {
    pub column: Magnitude,
    pub factor: usize,
    pub base: Magnitude,
}

/// The window of one row on the height of one column.
#[derive(Debug, Clone, Copy)]
pub struct Window {
    pub height: Height,
    pub row: usize,
}

/// Comparing a filled fraction with `a / b` comes down to comparing the
/// column's height with the point of the window that lies `a / b` of the way
/// through it.
proof fn lemma_window_balance(n: int, half: int, floor: int, span: int, a: int, b: int)
    ensures
        balance((2 * n - floor * (2 * half)) * b, a * (span * (2 * half))) == balance(
            (n * b) * 2,
            ((a * span + floor * b) * half) * 2,
        ),
{
    let whole = 2 * half;
    let below = floor * whole;
    let reach = a * span;
    let rise = floor * b;
    assert((2 * n - below) * b == (n * b) * 2 - below * b) by (nonlinear_arith);
    assert(below * b == rise * whole) by (nonlinear_arith)
        requires
            below == floor * whole,
            rise == floor * b,
    ;
    assert(a * (span * whole) == reach * whole) by (nonlinear_arith)
        requires
            reach == a * span,
    ;
    assert((reach + rise) * whole == reach * whole + rise * whole) by (nonlinear_arith);
    assert(((reach + rise) * half) * 2 == (reach + rise) * whole) by (nonlinear_arith)
        requires
            whole == 2 * half,
    ;
}

impl Height {
    /// The numerator of the height.
    pub open spec fn numer(self) -> nat {
        self.column.units() * self.factor as nat
    }

    /// The denominator of the height; zero where there is nothing to measure
    /// against.
    pub open spec fn denom(self) -> nat {
        2 * self.base.units()
    }
}

impl Window {
    /// The numerator of the fraction of the window that is filled.
    pub open spec fn fill_numer(self) -> int {
        fill_numer(self.height.numer(), self.height.denom(), self.row as nat)
    }

    /// The denominator of the fraction of the window that is filled.
    pub open spec fn fill_denom(self) -> int {
        fill_denom(self.height.denom(), self.row as nat)
    }

    /// Whether the height has nothing to be measured against.
    pub fn is_degenerate(&self) -> (r: bool)
        ensures
            r == (self.height.denom() == 0),
    {
        proof {
            lemma_pow2_pos(self.height.base.shift as nat);
            let m = self.height.base.mantissa as int;
            let p = pow2(self.height.base.shift as nat) as int;
            assert(m * p == 0 <==> m == 0) by (nonlinear_arith)
                requires
                    p > 0,
                    m >= 0,
            ;
        }
        self.height.base.mantissa == 0
    }

    /// How the filled fraction of the window stands to `a / b`.
    pub fn weigh_against(&self, a: u8, b: u8) -> (r: Balance)
        ensures
            r == balance(self.fill_numer() * b, a * self.fill_denom()),
    {
        let column = self.height.column;
        let base = self.height.base;
        let floor: u128 = if self.row == 0 {
            0
        } else {
            2 * (self.row as u128) - 1
        };
        let span: u128 = if self.row == 0 {
            1
        } else {
            2
        };
        assert(column.mantissa * self.height.factor <= 0xFFFF_FFFF * 0xFFFF_FFFF_FFFF_FFFF)
            by (nonlinear_arith)
            requires
                column.mantissa <= 0xFFFF_FFFF,
                self.height.factor <= 0xFFFF_FFFF_FFFF_FFFF,
        ;
        assert(column.mantissa * self.height.factor * b <= 0xFFFF_FFFF * 0xFFFF_FFFF_FFFF_FFFF
            * 0xFF) by (nonlinear_arith)
            requires
                0 <= column.mantissa * self.height.factor <= 0xFFFF_FFFF * 0xFFFF_FFFF_FFFF_FFFF,
                b <= 0xFF,
        ;
        assert(floor * b <= 0x1_FFFF_FFFF_FFFF_FFFF * 0xFF) by (nonlinear_arith)
            requires
                floor <= 0x1_FFFF_FFFF_FFFF_FFFF,
                b <= 0xFF,
        ;
        assert(a * span <= 0xFF * 2) by (nonlinear_arith)
            requires
                a <= 0xFF,
                span <= 2,
        ;
        assert((a * span + floor * b) * base.mantissa <= (0xFF * 2 + 0x1_FFFF_FFFF_FFFF_FFFF * 0xFF)
            * 0xFFFF_FFFF) by (nonlinear_arith)
            requires
                0 <= a * span + floor * b <= 0xFF * 2 + 0x1_FFFF_FFFF_FFFF_FFFF * 0xFF,
                base.mantissa <= 0xFFFF_FFFF,
        ;
        let left: u128 = (column.mantissa as u128) * (self.height.factor as u128) * (b as u128);
        let right: u128 = ((a as u128) * span + floor * (b as u128)) * (base.mantissa as u128);
        proof {
            let pc = pow2(column.shift as nat) as int;
            let pb = pow2(base.shift as nat) as int;
            let cm = column.mantissa as int;
            let bm = base.mantissa as int;
            let fac = self.height.factor as int;
            let bi = b as int;
            let through = (a as int) * (span as int) + (floor as int) * bi;
            let n = (cm * pc) * fac;
            let half = bm * pb;
            assert(floor == window_floor(self.row as nat));
            assert(span == window_span(self.row as nat));
            assert(self.height.numer() == n);
            assert(self.height.denom() == 2 * half);
            let l = left * pc;
            let r = right * pb;
            assert(l == n * bi) by (nonlinear_arith)
                requires
                    l == ((cm * fac) * bi) * pc,
                    n == (cm * pc) * fac,
            ;
            assert(r == through * half) by (nonlinear_arith)
                requires
                    r == (through * bm) * pb,
                    half == bm * pb,
            ;
            lemma_window_balance(n, half, floor as int, span as int, a as int, bi);
            lemma_balance_scales(l, r, 2);
        }
        weigh(left, column.shift as u32, right, base.shift as u32)
    }
}

} // verus!
