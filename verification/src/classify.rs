//! From magnitudes to a grid of fullness levels.
//!
//! Row 0 of the grid is the centerline; the rows after it lie further and
//! further out. The grid serves for both halves of the waveform.

use vstd::prelude::*;
use vstd::arithmetic::power2::pow2;
use crate::charset::WaveCharset;
use crate::fullness::BlockFullness;
use crate::magnitude::{loudest, peak_units, Magnitude};
use crate::window::{Height, Window};

verus! {

/// There was no magnitude to draw.
#[derive(Debug, Clone, Copy, PartialEq, Eq, Structural)]
pub struct EmptyInputError;

/// What a magnitude is multiplied by on its way to a height in rows. Scaled to
/// fit, the loudest magnitude is to come out at `wave_height - 1/2` rows, that
/// is at `(2 * wave_height - 1)` half rows; unscaled, the magnitude 1 is to come
/// out at `wave_height` rows.
pub open spec fn height_factor(wave_height: nat, scale: bool) -> nat {
    if scale {
        (2 * wave_height - 1) as nat
    } else {
        wave_height
    }
}

/// Half of what a magnitude is divided by on its way to a height in rows, in
/// steps of `2^-149`: the loudest magnitude when scaled to fit, and else one
/// half, which is `2^148` steps.
pub open spec fn height_base(peak: nat, scale: bool) -> nat {
    if scale {
        peak
    } else {
        pow2(148)
    }
}

/// The level of the cell in row `row` of column `col`.
pub open spec fn cell(
    charset: WaveCharset,
    magnitudes: Seq<Magnitude>,
    wave_height: nat,
    scale: bool,
    row: nat,
    col: int,
) -> BlockFullness {
    charset.level_of(
        magnitudes[col].units() * height_factor(wave_height, scale),
        2 * height_base(peak_units(magnitudes), scale),
        row,
    )
}

/// The grid of levels: `wave_height` rows with one level per magnitude each.
pub open spec fn grid(charset: WaveCharset, magnitudes: Seq<Magnitude>, wave_height: nat, scale: bool)
    -> Seq<Seq<BlockFullness>> {
    Seq::new(
        wave_height,
        |row: int|
            Seq::new(
                magnitudes.len(),
                |col: int| cell(charset, magnitudes, wave_height, scale, row as nat, col),
            ),
    )
}

/// The rows of a grid as sequences.
pub open spec fn grid_view(rows: Seq<Vec<BlockFullness>>) -> Seq<Seq<BlockFullness>> {
    Seq::new(rows.len(), |row: int| rows[row]@)
}

/// Whether every level of a grid is one that the palette has a glyph for.
pub open spec fn grid_supported(charset: WaveCharset, rows: Seq<Seq<BlockFullness>>) -> bool {
    forall|row: int, col: int|
        0 <= row < rows.len() && 0 <= col < rows[row].len() ==> charset.supports(
            #[trigger] rows[row][col],
        )
}

/// Whether every row of a grid has `width` levels.
pub open spec fn grid_width(rows: Seq<Seq<BlockFullness>>, width: nat) -> bool {
    forall|row: int| 0 <= row < rows.len() ==> (#[trigger] rows[row]).len() == width
}

/// Every level of a classified grid has a glyph in the palette that it was
/// classified for.
pub proof fn lemma_grid_supported(
    charset: WaveCharset,
    magnitudes: Seq<Magnitude>,
    wave_height: nat,
    scale: bool,
)
    ensures
        grid_supported(charset, grid(charset, magnitudes, wave_height, scale)),
{
}

/// Classifies every magnitude against every row. With `scale` the loudest
/// magnitude sets the measure; without it the magnitude 1 fills the height.
pub fn classify(wave_height: usize, magnitudes: &[Magnitude], scale: bool, charset: WaveCharset) -> (r:
    Result<Vec<Vec<BlockFullness>>, EmptyInputError>)
    requires
        wave_height >= 1,
        2 * wave_height - 1 <= usize::MAX,
    ensures
        r is Err <==> magnitudes@.len() == 0,
        r matches Ok(rows) ==> grid_view(rows@) == grid(
            charset,
            magnitudes@,
            wave_height as nat,
            scale,
        ),
        r matches Ok(rows) ==> grid_supported(charset, grid_view(rows@)),
{
    let peak = match loudest(magnitudes) {
        None => {
            return Err(EmptyInputError);
        },
        Some(peak) => peak,
    };
    let factor: usize = if scale {
        wave_height + (wave_height - 1)
    } else {
        wave_height
    };
    let base = if scale {
        peak
    } else {
        Magnitude { mantissa: 1, shift: 148 }
    };
    assert(base.units() == height_base(peak_units(magnitudes@), scale)) by {
        assert(1 * pow2(148) == pow2(148));
    }
    let mut rows: Vec<Vec<BlockFullness>> = Vec::new();
    let mut y: usize = 0;
    while y < wave_height
        invariant
            y <= wave_height,
            rows@.len() == y,
            factor == height_factor(wave_height as nat, scale),
            base.units() == height_base(peak_units(magnitudes@), scale),
            forall|row: int|
                0 <= row < y ==> (#[trigger] rows@[row])@ == grid(
                    charset,
                    magnitudes@,
                    wave_height as nat,
                    scale,
                )[row],
        decreases wave_height - y,
    {
        let mut row: Vec<BlockFullness> = Vec::new();
        let mut x: usize = 0;
        while x < magnitudes.len()
            invariant
                x <= magnitudes@.len(),
                row@.len() == x,
                factor == height_factor(wave_height as nat, scale),
                base.units() == height_base(peak_units(magnitudes@), scale),
                forall|col: int|
                    0 <= col < x ==> #[trigger] row@[col] == cell(
                        charset,
                        magnitudes@,
                        wave_height as nat,
                        scale,
                        y as nat,
                        col,
                    ),
            decreases magnitudes@.len() - x,
        {
            let window = Window { height: Height { column: magnitudes[x], factor, base }, row: y };
            row.push(charset.level(&window));
            x = x + 1;
        }
        assert(row@ =~= grid(charset, magnitudes@, wave_height as nat, scale)[y as int]);
        rows.push(row);
        y = y + 1;
    }
    proof {
        assert(grid_view(rows@) =~= grid(charset, magnitudes@, wave_height as nat, scale));
        lemma_grid_supported(charset, magnitudes@, wave_height as nat, scale);
    }
    Ok(rows)
}

} // verus!
