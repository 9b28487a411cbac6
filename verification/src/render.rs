//! From a grid of fullness levels to lines of text.
//!
//! The lines run from the top of the waveform to its bottom: the upper rows
//! from the farthest to the nearest, the centerline, then the lower rows from
//! the nearest to the farthest. Row 0 of a grid is the centerline and shows
//! once.

use vstd::prelude::*;
use vstd::slice::slice_subrange;
use crate::charset::WaveCharset;
use crate::classify::{classify, grid, grid_supported, grid_view, EmptyInputError};
use crate::laws::lemma_waveform_shape;
use crate::fullness::{BlockFullness, Position};
use crate::magnitude::Magnitude;

verus! {

/// How many columns share one character cell.
#[derive(Debug, Clone, Copy, PartialEq, Eq, Structural)]
pub enum Density {
    /// One column per cell.
    Standard,
    /// Two columns per cell; an odd column at the end is left out.
    High,
}

/// Taken on trust of std's `String::push`: the string afterwards is the string
/// before with the character appended at its end.
pub assume_specification[ String::push ](s: &mut String, ch: char)
    ensures
        final(s)@ == old(s)@.push(ch),
;

/// The line that shows a row with one glyph per level.
pub open spec fn line_single(charset: WaveCharset, pos: Position, row: Seq<BlockFullness>) -> Seq<
    char,
> {
    Seq::new(row.len(), |x: int| charset.glyph_single(pos, row[x]))
}

/// The line that shows a row with one glyph per pair of levels. A level that
/// is left over at the end does not show.
pub open spec fn line_double(charset: WaveCharset, pos: Position, row: Seq<BlockFullness>) -> Seq<
    char,
> {
    Seq::new(row.len() / 2, |x: int| charset.glyph_pair(pos, row[2 * x], row[2 * x + 1]))
}

/// The line that shows a row at the given density.
pub open spec fn line_of(
    charset: WaveCharset,
    density: Density,
    pos: Position,
    row: Seq<BlockFullness>,
) -> Seq<char> {
    match density {
        Density::Standard => line_single(charset, pos, row),
        Density::High => line_double(charset, pos, row),
    }
}

/// How many characters a line has for `columns` levels.
pub open spec fn line_width(density: Density, columns: nat) -> nat {
    match density {
        Density::Standard => columns,
        Density::High => columns / 2,
    }
}

/// The row of a grid of `height` rows that line `line` of the text shows.
pub open spec fn line_row(height: nat, line: nat) -> nat {
    if line + 1 < height {
        (height - 1 - line) as nat
    } else {
        (line + 1 - height) as nat
    }
}

/// Where line `line` of the text lies, for a grid of `height` rows.
pub open spec fn line_position(height: nat, line: nat) -> Position {
    if line + 1 < height {
        Position::Upper
    } else if line + 1 == height {
        Position::Middle
    } else {
        Position::Lower
    }
}

/// The text that shows a grid: twice its rows less one, since the centerline
/// shows once.
pub open spec fn text(charset: WaveCharset, density: Density, rows: Seq<Seq<BlockFullness>>) -> Seq<
    Seq<char>,
> {
    Seq::new(
        (2 * rows.len() - 1) as nat,
        |line: int|
            line_of(
                charset,
                density,
                line_position(rows.len(), line as nat),
                rows[line_row(rows.len(), line as nat) as int],
            ),
    )
}

/// The text of a waveform, from the magnitudes on.
pub open spec fn waveform(
    charset: WaveCharset,
    density: Density,
    magnitudes: Seq<Magnitude>,
    wave_height: nat,
    scale: bool,
) -> Seq<Seq<char>> {
    text(charset, density, grid(charset, magnitudes, wave_height, scale))
}

/// The lines of a text as sequences of characters.
pub open spec fn text_view(lines: Seq<String>) -> Seq<Seq<char>> {
    Seq::new(lines.len(), |line: int| lines[line]@)
}

/// Whether every level of a row is one that the palette has a glyph for.
pub open spec fn row_supported(charset: WaveCharset, row: Seq<BlockFullness>) -> bool {
    forall|x: int| 0 <= x < row.len() ==> charset.supports(#[trigger] row[x])
}

/// Every row of a grid whose levels all have glyphs has glyphs for its levels.
proof fn lemma_row_supported(charset: WaveCharset, rows: Seq<Vec<BlockFullness>>, y: int)
    requires
        0 <= y < rows.len(),
        grid_supported(charset, grid_view(rows)),
    ensures
        row_supported(charset, rows[y]@),
{
    assert forall|x: int| 0 <= x < rows[y]@.len() implies charset.supports(
        #[trigger] rows[y]@[x],
    ) by {
        assert(grid_view(rows)[y][x] == rows[y]@[x]);
    }
}

/// Writes one row as a line, a glyph for each level.
pub fn write_single(row: &[BlockFullness], charset: WaveCharset, pos: Position) -> (line: String)
    requires
        row_supported(charset, row@),
    ensures
        line@ == line_single(charset, pos, row@),
{
    let mut line = String::new();
    let mut x: usize = 0;
    while x < row.len()
        invariant
            x <= row@.len(),
            row_supported(charset, row@),
            line@ == line_single(charset, pos, row@).subrange(0, x as int),
        decreases row@.len() - x,
    {
        line.push(charset.render_single(pos, row[x]));
        x = x + 1;
        assert(line@ =~= line_single(charset, pos, row@).subrange(0, x as int));
    }
    assert(line@ =~= line_single(charset, pos, row@));
    line
}

/// Writes one row as a line, a glyph for each pair of levels.
pub fn write_double(row: &[BlockFullness], charset: WaveCharset, pos: Position) -> (line: String)
    requires
        row_supported(charset, row@),
    ensures
        line@ == line_double(charset, pos, row@),
{
    let mut line = String::new();
    let pairs = row.len() / 2;
    let mut x: usize = 0;
    while x < pairs
        invariant
            x <= pairs,
            pairs == row@.len() / 2,
            2 * pairs <= row@.len() <= usize::MAX,
            row_supported(charset, row@),
            line@ == line_double(charset, pos, row@).subrange(0, x as int),
        decreases pairs - x,
    {
        let pair = slice_subrange(row, 2 * x, 2 * x + 2);
        assert(pair@[0] == row@[2 * x] && pair@[1] == row@[2 * x + 1]);
        line.push(charset.render_double(pos, pair));
        x = x + 1;
        assert(line@ =~= line_double(charset, pos, row@).subrange(0, x as int));
    }
    assert(line@ =~= line_double(charset, pos, row@));
    line
}

/// Writes one row as a line at the given density.
pub fn write_line(row: &[BlockFullness], charset: WaveCharset, density: Density, pos: Position) -> (line:
    String)
    requires
        row_supported(charset, row@),
    ensures
        line@ == line_of(charset, density, pos, row@),
{
    match density {
        Density::Standard => write_single(row, charset, pos),
        Density::High => write_double(row, charset, pos),
    }
}

/// Writes a grid as text: the upper half, the centerline, the lower half.
pub fn assemble(rows: &[Vec<BlockFullness>], charset: WaveCharset, density: Density) -> (lines: Vec<
    String,
>)
    requires
        rows@.len() >= 1,
        grid_supported(charset, grid_view(rows@)),
    ensures
        text_view(lines@) == text(charset, density, grid_view(rows@)),
{
    let height = rows.len();
    let ghost shown = text(charset, density, grid_view(rows@));
    let mut lines: Vec<String> = Vec::new();
    let mut y: usize = height - 1;
    while y >= 1
        invariant
            height == rows@.len(),
            height >= 1,
            y < height,
            grid_supported(charset, grid_view(rows@)),
            shown == text(charset, density, grid_view(rows@)),
            lines@.len() == height - 1 - y,
            forall|i: int| 0 <= i < lines@.len() ==> (#[trigger] lines@[i])@ == shown[i],
        decreases y,
    {
        proof {
            lemma_row_supported(charset, rows@, y as int);
        }
        let line = write_line(rows[y].as_slice(), charset, density, Position::Upper);
        assert(line@ == shown[lines@.len() as int]);
        lines.push(line);
        y = y - 1;
    }
    proof {
        lemma_row_supported(charset, rows@, 0);
    }
    let middle = write_line(rows[0].as_slice(), charset, density, Position::Middle);
    assert(middle@ == shown[height - 1]);
    lines.push(middle);
    y = 1;
    while y < height
        invariant
            height == rows@.len(),
            1 <= y <= height,
            grid_supported(charset, grid_view(rows@)),
            shown == text(charset, density, grid_view(rows@)),
            lines@.len() == height - 1 + y,
            forall|i: int| 0 <= i < lines@.len() ==> (#[trigger] lines@[i])@ == shown[i],
        decreases height - y,
    {
        proof {
            lemma_row_supported(charset, rows@, y as int);
        }
        let line = write_line(rows[y].as_slice(), charset, density, Position::Lower);
        assert(line@ == shown[lines@.len() as int]);
        lines.push(line);
        y = y + 1;
    }
    assert(text_view(lines@) =~= shown);
    lines
}

/// The waveform with a single character per level.
pub fn render_sd(rows: &[Vec<BlockFullness>], charset: WaveCharset) -> (lines: Vec<String>)
    requires
        rows@.len() >= 1,
        grid_supported(charset, grid_view(rows@)),
    ensures
        text_view(lines@) == text(charset, Density::Standard, grid_view(rows@)),
{
    assemble(rows, charset, Density::Standard)
}

/// The waveform with a single character per two levels. If the number of
/// levels in a row is odd, the last one is skipped.
pub fn render_hd(rows: &[Vec<BlockFullness>], charset: WaveCharset) -> (lines: Vec<String>)
    requires
        rows@.len() >= 1,
        grid_supported(charset, grid_view(rows@)),
    ensures
        text_view(lines@) == text(charset, Density::High, grid_view(rows@)),
{
    assemble(rows, charset, Density::High)
}

/// Renders the magnitudes as a waveform of `2 * wave_height - 1` lines of text,
/// in the given palette and at the given density. With `scale` the waveform is
/// scaled to fit; without it the magnitude 1 fills the height.
pub fn render(
    wave_height: usize,
    magnitudes: &[Magnitude],
    scale: bool,
    charset: WaveCharset,
    density: Density,
) -> (r: Result<Vec<String>, EmptyInputError>)
    requires
        wave_height >= 1,
        2 * wave_height - 1 <= usize::MAX,
    ensures
        r is Err <==> magnitudes@.len() == 0,
        r matches Ok(lines) ==> text_view(lines@) == waveform(
            charset,
            density,
            magnitudes@,
            wave_height as nat,
            scale,
        ),
        r matches Ok(lines) ==> lines@.len() == 2 * wave_height - 1 && forall|line: int|
            0 <= line < lines@.len() ==> (#[trigger] lines@[line])@.len() == line_width(
                density,
                magnitudes@.len(),
            ),
{
    match classify(wave_height, magnitudes, scale, charset) {
        Err(e) => Err(e),
        Ok(rows) => {
            assert(grid_view(rows@).len() == wave_height);
            let lines = match density {
                Density::Standard => render_sd(rows.as_slice(), charset),
                Density::High => render_hd(rows.as_slice(), charset),
            };
            proof {
                lemma_waveform_shape(charset, density, magnitudes@, wave_height as nat, scale);
                assert forall|line: int| 0 <= line < lines@.len() implies (
                #[trigger] lines@[line])@.len() == line_width(density, magnitudes@.len()) by {
                    assert(text_view(lines@)[line] == lines@[line]@);
                }
            }
            Ok(lines)
        },
    }
}

} // verus!
