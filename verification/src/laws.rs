//! What holds of every waveform.

use vstd::prelude::*;
use vstd::arithmetic::power2::{pow2, lemma_pow2_pos, lemma_pow2_unfold};
use crate::charset::WaveCharset;
use crate::classify::{cell, grid, height_base, height_factor};
use crate::fullness::{BlockFullness, Position};
use crate::magnitude::{lemma_peak_attained, lemma_peak_bounds, peak_units, Magnitude};
use crate::render::{line_position, line_row, line_width, waveform, Density};
use crate::window::{fill_denom, fill_numer, window_floor, window_span};

verus! {

/// The glyph that a palette shows for an empty cell, wherever the cell lies.
pub open spec fn blank(charset: WaveCharset) -> char {
    match charset {
        WaveCharset::Dots => '⠀',
        _ => ' ',
    }
}

/// A waveform has `2 * wave_height - 1` lines, each with a character per
/// magnitude at standard density and a character per two magnitudes at high
/// density.
pub proof fn lemma_waveform_shape(
    charset: WaveCharset,
    density: Density,
    magnitudes: Seq<Magnitude>,
    wave_height: nat,
    scale: bool,
)
    requires
        wave_height >= 1,
    ensures
        waveform(charset, density, magnitudes, wave_height, scale).len() == 2 * wave_height - 1,
        forall|line: int|
            0 <= line < 2 * wave_height - 1 ==> (#[trigger] waveform(
                charset,
                density,
                magnitudes,
                wave_height,
                scale,
            )[line]).len() == line_width(density, magnitudes.len()),
{
    let rows = grid(charset, magnitudes, wave_height, scale);
    assert forall|line: int| 0 <= line < 2 * wave_height - 1 implies (#[trigger] waveform(
        charset,
        density,
        magnitudes,
        wave_height,
        scale,
    )[line]).len() == line_width(density, magnitudes.len()) by {
        let row = line_row(wave_height, line as nat);
        assert(rows[row as int].len() == magnitudes.len());
    }
}

/// At high density an odd number `n` of magnitudes gives lines of
/// `(n - 1) / 2` characters: the last magnitude does not show. At standard
/// density the same magnitudes give lines of `n` characters.
pub proof fn lemma_odd_column_dropped(
    charset: WaveCharset,
    magnitudes: Seq<Magnitude>,
    wave_height: nat,
    scale: bool,
    line: int,
)
    requires
        wave_height >= 1,
        magnitudes.len() % 2 == 1,
        0 <= line < 2 * wave_height - 1,
    ensures
        waveform(charset, Density::High, magnitudes, wave_height, scale)[line].len() == (
        magnitudes.len() - 1) / 2,
        waveform(charset, Density::Standard, magnitudes, wave_height, scale)[line].len()
            == magnitudes.len(),
{
    lemma_waveform_shape(charset, Density::High, magnitudes, wave_height, scale);
    lemma_waveform_shape(charset, Density::Standard, magnitudes, wave_height, scale);
}

/// From one row to the next one out, the level of a column does not rise.
pub proof fn lemma_level_falls_by_row(charset: WaveCharset, numer: nat, denom: nat, row: nat)
    ensures
        charset.level_of(numer, denom, row + 1).rank_of() <= charset.level_of(
            numer,
            denom,
            row,
        ).rank_of(),
{
    let d = denom as int;
    let r = row as int;
    if denom != 0 && fill_numer(numer, denom, row + 1) > 0 {
        assert((2 * (r + 1) - 1) * d == (2 * r - 1) * d + 2 * d) by (nonlinear_arith);
        assert(1 * d == d);
        assert(0 * d == 0);
        assert(fill_numer(numer, denom, row) >= fill_denom(denom, row));
    }
}

/// The level of a column does not rise with the distance from the centerline.
pub proof fn lemma_level_falls(charset: WaveCharset, numer: nat, denom: nat, near: nat, far: nat)
    requires
        near <= far,
    ensures
        charset.level_of(numer, denom, far).rank_of() <= charset.level_of(
            numer,
            denom,
            near,
        ).rank_of(),
    decreases far - near,
{
    if near < far {
        lemma_level_falls(charset, numer, denom, near, (far - 1) as nat);
        lemma_level_falls_by_row(charset, numer, denom, (far - 1) as nat);
    }
}

/// In every column of a grid, fullness does not rise with the distance from
/// the centerline: a cell is full only if every cell nearer to the centerline
/// is full, and empty only if every cell farther out is empty.
pub proof fn lemma_column_monotonic(
    charset: WaveCharset,
    magnitudes: Seq<Magnitude>,
    wave_height: nat,
    scale: bool,
    col: int,
    near: nat,
    far: nat,
)
    requires
        0 <= col < magnitudes.len(),
        near <= far,
    ensures
        cell(charset, magnitudes, wave_height, scale, far, col).rank_of() <= cell(
            charset,
            magnitudes,
            wave_height,
            scale,
            near,
            col,
        ).rank_of(),
        cell(charset, magnitudes, wave_height, scale, far, col) == BlockFullness::Full ==> cell(
            charset,
            magnitudes,
            wave_height,
            scale,
            near,
            col,
        ) == BlockFullness::Full,
        cell(charset, magnitudes, wave_height, scale, near, col) == BlockFullness::Empty ==> cell(
            charset,
            magnitudes,
            wave_height,
            scale,
            far,
            col,
        ) == BlockFullness::Empty,
{
    lemma_level_falls(
        charset,
        magnitudes[col].units() * height_factor(wave_height, scale),
        2 * height_base(peak_units(magnitudes), scale),
        near,
        far,
    );
}

/// Magnitudes that are all zero give a waveform that is blank in every cell,
/// the centerline included, scaled or not, at either density.
pub proof fn lemma_silence_is_blank(
    charset: WaveCharset,
    density: Density,
    magnitudes: Seq<Magnitude>,
    wave_height: nat,
    scale: bool,
    line: int,
    x: int,
)
    requires
        wave_height >= 1,
        forall|i: int| 0 <= i < magnitudes.len() ==> (#[trigger] magnitudes[i]).units() == 0,
        0 <= line < 2 * wave_height - 1,
        0 <= x < line_width(density, magnitudes.len()),
    ensures
        waveform(charset, density, magnitudes, wave_height, scale)[line][x] == blank(charset),
{
    let rows = grid(charset, magnitudes, wave_height, scale);
    let row = line_row(wave_height, line as nat);
    let pos = line_position(wave_height, line as nat);
    assert forall|col: int| 0 <= col < magnitudes.len() implies #[trigger] rows[row as int][col]
        == BlockFullness::Empty by {
        assert(magnitudes[col].units() == 0);
        assert(0 * height_factor(wave_height, scale) == 0);
        let denom = 2 * height_base(peak_units(magnitudes), scale);
        assert(window_floor(row) * denom >= 0) by (nonlinear_arith)
            requires
                window_floor(row) >= 0,
                denom >= 0,
        ;
    }
    match density {
        Density::Standard => {
            assert(rows[row as int][x] == BlockFullness::Empty);
        },
        Density::High => {
            assert(rows[row as int][2 * x] == BlockFullness::Empty);
            assert(rows[row as int][2 * x + 1] == BlockFullness::Empty);
        },
    }
}

/// Two numbers in a positive proportion have the same sign.
proof fn lemma_same_sign(x: int, y: int, p: int, q: int)
    requires
        p > 0,
        q > 0,
        p * x == q * y,
    ensures
        x > 0 <==> y > 0,
        x < 0 <==> y < 0,
{
    assert(x > 0 ==> p * x > 0) by (nonlinear_arith)
        requires
            p > 0,
    ;
    assert(x < 0 ==> p * x < 0) by (nonlinear_arith)
        requires
            p > 0,
    ;
    assert(y > 0 ==> q * y > 0) by (nonlinear_arith)
        requires
            q > 0,
    ;
    assert(y < 0 ==> q * y < 0) by (nonlinear_arith)
        requires
            q > 0,
    ;
    assert(x == 0 ==> p * x == 0) by (nonlinear_arith);
    assert(y == 0 ==> q * y == 0) by (nonlinear_arith);
}

/// Two combinations `a * u - b * v` of numbers in the same positive
/// proportion have the same sign.
proof fn lemma_same_side(u1: int, v1: int, u2: int, v2: int, p: int, q: int, a: int, b: int)
    requires
        p > 0,
        q > 0,
        p * u1 == q * u2,
        p * v1 == q * v2,
    ensures
        a * u1 - b * v1 > 0 <==> a * u2 - b * v2 > 0,
        a * u1 - b * v1 < 0 <==> a * u2 - b * v2 < 0,
{
    assert(p * (a * u1 - b * v1) == a * (p * u1) - b * (p * v1)) by (nonlinear_arith);
    assert(q * (a * u2 - b * v2) == a * (q * u2) - b * (q * v2)) by (nonlinear_arith);
    lemma_same_sign(a * u1 - b * v1, a * u2 - b * v2, p, q);
}

/// A level depends on the height alone, not on how the ratio is written:
/// numerators and denominators in the same positive proportion give the same
/// level.
pub proof fn lemma_level_of_proportion(
    charset: WaveCharset,
    n1: nat,
    d1: nat,
    n2: nat,
    d2: nat,
    p: nat,
    q: nat,
    row: nat,
)
    requires
        p > 0,
        q > 0,
        p * n1 == q * n2,
        p * d1 == q * d2,
    ensures
        charset.level_of(n1, d1, row) == charset.level_of(n2, d2, row),
{
    let pi = p as int;
    let qi = q as int;
    let fl = window_floor(row) as int;
    let sp = window_span(row) as int;
    let f1 = fill_numer(n1, d1, row);
    let f2 = fill_numer(n2, d2, row);
    let g1 = fill_denom(d1, row);
    let g2 = fill_denom(d2, row);
    lemma_same_sign(d1 as int, d2 as int, pi, qi);
    assert(pi * f1 == qi * f2) by (nonlinear_arith)
        requires
            f1 == 2 * n1 - fl * d1,
            f2 == 2 * n2 - fl * d2,
            pi * n1 == qi * n2,
            pi * d1 == qi * d2,
    ;
    assert(pi * g1 == qi * g2) by (nonlinear_arith)
        requires
            g1 == sp * d1,
            g2 == sp * d2,
            pi * d1 == qi * d2,
    ;
    lemma_same_sign(f1, f2, pi, qi);
    lemma_same_side(f1, g1, f2, g2, pi, qi, 1, 1);
    lemma_same_side(f1, g1, f2, g2, pi, qi, 100, 66);
    lemma_same_side(f1, g1, f2, g2, pi, qi, 4, 3);
    lemma_same_side(f1, g1, f2, g2, pi, qi, 2, 1);
}

/// Magnitudes in a positive proportion have their peaks in that proportion.
pub proof fn lemma_peak_of_proportion(a: Seq<Magnitude>, b: Seq<Magnitude>, p: nat, q: nat)
    requires
        a.len() == b.len(),
        p > 0,
        q > 0,
        forall|i: int| 0 <= i < a.len() ==> p * (#[trigger] a[i]).units() == q * b[i].units(),
    ensures
        p * peak_units(a) == q * peak_units(b),
{
    if a.len() > 0 {
        let ia = lemma_peak_attained(a);
        let ib = lemma_peak_attained(b);
        lemma_peak_bounds(a, ib);
        lemma_peak_bounds(b, ia);
        let pa = peak_units(a) as int;
        let pb = peak_units(b) as int;
        let pi = p as int;
        let qi = q as int;
        assert(pi * a[ia].units() == qi * b[ia].units());
        assert(pi * a[ib].units() == qi * b[ib].units());
        assert(qi * b[ia].units() <= qi * pb) by (nonlinear_arith)
            requires
                b[ia].units() <= pb,
                qi > 0,
        ;
        assert(pi * a[ib].units() <= pi * pa) by (nonlinear_arith)
            requires
                a[ib].units() <= pa,
                pi > 0,
        ;
        assert(a[ia].units() == pa);
        assert(b[ib].units() == pb);
        assert(pi * pa == qi * pb);
    } else {
        assert(peak_units(a) == 0 && peak_units(b) == 0);
        assert(p * 0 == 0 && q * 0 == 0);
    }
}

/// Scaled to fit, a waveform does not change when every magnitude is
/// multiplied by the same positive number `q / p`.
pub proof fn lemma_scale_invariant(
    charset: WaveCharset,
    density: Density,
    a: Seq<Magnitude>,
    b: Seq<Magnitude>,
    p: nat,
    q: nat,
    wave_height: nat,
)
    requires
        a.len() == b.len(),
        p > 0,
        q > 0,
        forall|i: int| 0 <= i < a.len() ==> p * (#[trigger] a[i]).units() == q * b[i].units(),
    ensures
        waveform(charset, density, a, wave_height, true) == waveform(
            charset,
            density,
            b,
            wave_height,
            true,
        ),
{
    lemma_peak_of_proportion(a, b, p, q);
    let factor = height_factor(wave_height, true) as int;
    let pa = peak_units(a) as int;
    let pb = peak_units(b) as int;
    let pi = p as int;
    let qi = q as int;
    assert(pi * (2 * pa) == qi * (2 * pb)) by (nonlinear_arith)
        requires
            pi * pa == qi * pb,
    ;
    assert forall|row: nat, col: int| 0 <= col < a.len() implies #[trigger] cell(
        charset,
        a,
        wave_height,
        true,
        row,
        col,
    ) == cell(charset, b, wave_height, true, row, col) by {
        let ua = a[col].units() as int;
        let ub = b[col].units() as int;
        assert(pi * ua == qi * ub);
        assert(pi * (ua * factor) == qi * (ub * factor)) by (nonlinear_arith)
            requires
                pi * ua == qi * ub,
        ;
        lemma_level_of_proportion(
            charset,
            a[col].units() * height_factor(wave_height, true),
            2 * peak_units(a),
            b[col].units() * height_factor(wave_height, true),
            2 * peak_units(b),
            p,
            q,
            row,
        );
    }
    let ga = grid(charset, a, wave_height, true);
    let gb = grid(charset, b, wave_height, true);
    assert(ga =~= gb) by {
        assert forall|row: int| 0 <= row < wave_height implies #[trigger] ga[row] =~= gb[row] by {
            assert forall|col: int| 0 <= col < a.len() implies ga[row][col] == gb[row][col] by {
                assert(ga[row][col] == cell(charset, a, wave_height, true, row as nat, col));
            }
        }
    }
}

/// Unscaled, a magnitude of 1 or more fills its column: every row of the grid
/// is full there, however large the magnitude.
pub proof fn lemma_unscaled_saturates(
    charset: WaveCharset,
    magnitudes: Seq<Magnitude>,
    wave_height: nat,
    col: int,
    row: nat,
)
    requires
        0 <= col < magnitudes.len(),
        row < wave_height,
        magnitudes[col].units() >= pow2(149),
    ensures
        cell(charset, magnitudes, wave_height, false, row, col) == BlockFullness::Full,
{
    lemma_pow2_unfold(149);
    lemma_pow2_pos(148);
    let half = pow2(148) as int;
    let u = magnitudes[col].units() as int;
    let h = wave_height as int;
    let fl = window_floor(row) as int;
    let sp = window_span(row) as int;
    assert(fl + sp <= 2 * h - 1);
    assert(u * h >= (2 * half) * h) by (nonlinear_arith)
        requires
            u >= 2 * half,
            h >= 0,
    ;
    assert((fl + sp) * (2 * half) <= (2 * h - 1) * (2 * half)) by (nonlinear_arith)
        requires
            fl + sp <= 2 * h - 1,
            half > 0,
    ;
    assert((fl + sp) * (2 * half) == fl * (2 * half) + sp * (2 * half)) by (nonlinear_arith);
    assert((2 * h - 1) * (2 * half) <= 2 * ((2 * half) * h)) by (nonlinear_arith)
        requires
            half > 0,
    ;
    assert(sp * (2 * half) > 0) by (nonlinear_arith)
        requires
            sp >= 1,
            half > 0,
    ;
}

/// Unscaled and at standard density, a magnitude of 1 or more shows the
/// glyph of a full cell in every line of its column.
pub proof fn lemma_unscaled_saturates_text(
    charset: WaveCharset,
    magnitudes: Seq<Magnitude>,
    wave_height: nat,
    col: int,
    line: int,
)
    requires
        wave_height >= 1,
        0 <= col < magnitudes.len(),
        0 <= line < 2 * wave_height - 1,
        magnitudes[col].units() >= pow2(149),
    ensures
        waveform(charset, Density::Standard, magnitudes, wave_height, false)[line][col]
            == charset.glyph_single(
            line_position(wave_height, line as nat),
            BlockFullness::Full,
        ),
{
    let row = line_row(wave_height, line as nat);
    lemma_unscaled_saturates(charset, magnitudes, wave_height, col, row);
    let rows = grid(charset, magnitudes, wave_height, false);
    assert(rows[row as int][col] == cell(charset, magnitudes, wave_height, false, row, col));
}

} // verus!
