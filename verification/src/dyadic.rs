//! Exact comparison of numbers of the form `a * 2^k`, kept as the pair
//! `(a, k)`, without ever forming the product.

use vstd::prelude::*;
use vstd::arithmetic::power2::{pow2, lemma_pow2_pos, lemma_pow2_unfold, lemma_pow2_adds,
    lemma_pow2_strictly_increases, lemma2_to64};

verus! {

/// How one quantity stands to another.
#[derive(Debug, Clone, Copy, PartialEq, Eq, Structural)]
pub enum Balance {
    Below,
    Level,
    Above,
}

/// How `x` stands to `y`.
pub open spec fn balance(x: int, y: int) -> Balance {
    if x < y {
        Balance::Below
    } else if x == y {
        Balance::Level
    } else {
        Balance::Above
    }
}

/// `2^128` is beyond every `u128`.
pub proof fn lemma_pow2_128()
    ensures
        pow2(128) == 0x1_0000_0000_0000_0000_0000_0000_0000_0000,
{
    lemma2_to64();
    lemma_pow2_adds(64, 64);
    assert(0x1_0000_0000_0000_0000int * 0x1_0000_0000_0000_0000int
        == 0x1_0000_0000_0000_0000_0000_0000_0000_0000int) by (nonlinear_arith);
}

/// Multiplying both sides by the same positive number keeps the balance.
pub proof fn lemma_balance_scales(x: int, y: int, c: int)
    requires
        c > 0,
    ensures
        balance(x * c, y * c) == balance(x, y),
{
    assert(x < y ==> x * c < y * c) by (nonlinear_arith)
        requires
            c > 0,
    ;
    assert(x > y ==> x * c > y * c) by (nonlinear_arith)
        requires
            c > 0,
    ;
}

/// `2^e` for an exponent that a `u128` can hold.
pub fn power_of_two(e: u32) -> (p: u128)
    requires
        e < 128,
    ensures
        p == pow2(e as nat),
{
    let mut p: u128 = 1;
    let mut i: u32 = 0;
    proof {
        lemma2_to64();
    }
    while i < e
        invariant
            i <= e < 128,
            p == pow2(i as nat),
        decreases e - i,
    {
        proof {
            lemma_pow2_unfold((i + 1) as nat);
            lemma_pow2_128();
            if i + 1 < 128 {
                lemma_pow2_strictly_increases((i + 1) as nat, 128);
            }
        }
        p = p * 2;
        i = i + 1;
    }
    p
}

/// Compares `a * 2^d` with `b`.
pub fn weigh_raised(a: u128, d: u32, b: u128) -> (r: Balance)
    ensures
        r == balance(a * pow2(d as nat), b as int),
{
    proof {
        lemma_pow2_pos(d as nat);
    }
    if a == 0 {
        assert(a * pow2(d as nat) == 0) by (nonlinear_arith)
            requires
                a == 0,
        ;
        return if b == 0 {
            Balance::Level
        } else {
            Balance::Below
        };
    }
    if d >= 128 {
        proof {
            lemma_pow2_128();
            if d > 128 {
                lemma_pow2_strictly_increases(128, d as nat);
            }
            assert(a * pow2(d as nat) >= pow2(d as nat)) by (nonlinear_arith)
                requires
                    a >= 1,
            ;
        }
        return Balance::Above;
    }
    let p = power_of_two(d);
    let q = b / p;
    let rest = b % p;
    proof {
        let ai = a as int;
        let qi = q as int;
        let pi = p as int;
        assert(b == qi * pi + rest) by {
            vstd::arithmetic::div_mod::lemma_fundamental_div_mod(b as int, pi);
            assert(pi * qi == qi * pi) by (nonlinear_arith);
        }
        assert(ai > qi ==> ai * pi >= qi * pi + pi) by (nonlinear_arith)
            requires
                pi > 0,
        ;
        assert(ai < qi ==> ai * pi <= qi * pi - pi) by (nonlinear_arith)
            requires
                pi > 0,
        ;
    }
    if a > q {
        Balance::Above
    } else if a < q {
        Balance::Below
    } else if rest == 0 {
        Balance::Level
    } else {
        Balance::Below
    }
}

/// Compares `a * 2^ka` with `b * 2^kb`, whatever the exponents.
pub fn weigh(a: u128, ka: u32, b: u128, kb: u32) -> (r: Balance)
    ensures
        r == balance(a * pow2(ka as nat), b * pow2(kb as nat)),
{
    if ka >= kb {
        let d = ka - kb;
        proof {
            lemma_pow2_adds(d as nat, kb as nat);
            lemma_pow2_pos(kb as nat);
            let c = pow2(kb as nat) as int;
            let pd = pow2(d as nat) as int;
            assert(a * (pd * c) == (a * pd) * c) by (nonlinear_arith);
            lemma_balance_scales(a * pd, b as int, c);
        }
        weigh_raised(a, d, b)
    } else {
        let d = kb - ka;
        proof {
            lemma_pow2_adds(d as nat, ka as nat);
            lemma_pow2_pos(ka as nat);
            let c = pow2(ka as nat) as int;
            let pd = pow2(d as nat) as int;
            assert(b * (pd * c) == (b * pd) * c) by (nonlinear_arith);
            lemma_balance_scales(a as int, b * pd, c);
        }
        match weigh_raised(b, d, a) {
            Balance::Below => Balance::Above,
            Balance::Level => Balance::Level,
            Balance::Above => Balance::Below,
        }
    }
}

} // verus!
