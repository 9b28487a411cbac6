//! The glyph palettes: which character shows a cell of a given fullness.

use vstd::prelude::*;
use crate::dyadic::Balance;
use crate::fullness::{BlockFullness, Position};
use crate::window::{fill_denom, fill_numer, Window};

verus! {

/// Character set for rendering a waveform.
#[derive(Debug, Clone, Copy, PartialEq, Eq, Structural)]
pub enum WaveCharset {
    Ascii,
    Blocks,
    Dots,
}

impl Default for WaveCharset {
    fn default() -> (c: WaveCharset)
        ensures
            c == WaveCharset::Blocks,
    {
        WaveCharset::Blocks
    }
}

/// One of three glyphs, by where the cell lies.
pub open spec fn by_position(pos: Position, upper: char, lower: char, middle: char) -> char {
    match pos {
        Position::Upper => upper,
        Position::Lower => lower,
        Position::Middle => middle,
    }
}

/// The glyph of one column in the `Ascii` palette. Half a cell is drawn so
/// that the mark sits on the side of the centerline.
pub open spec fn ascii_single(pos: Position, fullness: BlockFullness) -> char {
    match fullness {
        BlockFullness::Empty => ' ',
        BlockFullness::Half => by_position(pos, ',', '\'', '*'),
        BlockFullness::Full => '#',
        _ => arbitrary(),
    }
}

/// The glyph of one column in the `Blocks` palette. Half a cell is the half
/// block that touches the centerline; on the centerline itself it is whole.
pub open spec fn blocks_single(pos: Position, fullness: BlockFullness) -> char {
    match fullness {
        BlockFullness::Empty => ' ',
        BlockFullness::Half => by_position(pos, '▄', '▀', '█'),
        BlockFullness::Full => '█',
        _ => arbitrary(),
    }
}

/// The glyph of one column in the `Dots` palette: a Braille cell with both of
/// its columns of dots filled alike.
pub open spec fn dots_single(pos: Position, fullness: BlockFullness) -> char {
    match fullness {
        BlockFullness::Empty => '⠀',
        BlockFullness::Third => by_position(pos, '⠤', '⠉', '⠒'),
        BlockFullness::TwoThird => by_position(pos, '⠶', '⠛', '⠿'),
        BlockFullness::Full => '⠿',
        BlockFullness::Half => arbitrary(),
    }
}

/// The Braille glyph of a cell whose left column is filled to `a` and whose
/// right column is filled to `b`, for `a != b`. Each entry was chosen by eye;
/// the table follows no rule, and swapping the columns changes the glyph.
pub open spec fn dots_pair(pos: Position, a: BlockFullness, b: BlockFullness) -> char {
    match (a, b) {
        (BlockFullness::Empty, BlockFullness::Third) => by_position(pos, '⠠', '⠈', '⠐'),
        (BlockFullness::Empty, BlockFullness::TwoThird) => by_position(pos, '⠰', '⠘', '⠸'),
        (BlockFullness::Empty, BlockFullness::Full) => '⠸',
        (BlockFullness::Third, BlockFullness::Empty) => by_position(pos, '⠄', '⠁', '⠇'),
        (BlockFullness::Third, BlockFullness::TwoThird) => by_position(pos, '⠴', '⠙', '⠿'),
        (BlockFullness::Third, BlockFullness::Full) => by_position(pos, '⠼', '⠹', '⠿'),
        (BlockFullness::TwoThird, BlockFullness::Empty) => by_position(pos, '⠆', '⠃', '⠇'),
        (BlockFullness::TwoThird, BlockFullness::Third) => by_position(pos, '⠦', '⠙', '⠿'),
        (BlockFullness::TwoThird, BlockFullness::Full) => by_position(pos, '⠾', '⠻', '⠿'),
        (BlockFullness::Full, BlockFullness::Empty) => '⠇',
        (BlockFullness::Full, BlockFullness::Third) => by_position(pos, '⠧', '⠏', '⠿'),
        (BlockFullness::Full, BlockFullness::TwoThird) => by_position(pos, '⠷', '⠟', '⠿'),
        _ => arbitrary(),
    }
}

impl WaveCharset {
    /// Whether the palette has a glyph for the level. The coarse palettes know
    /// `Empty`, `Half` and `Full`; `Dots` knows every level but `Half`.
    pub open spec fn supports(self, fullness: BlockFullness) -> bool {
        match self {
            WaveCharset::Dots => fullness != BlockFullness::Half,
            _ => fullness == BlockFullness::Empty || fullness == BlockFullness::Half || fullness
                == BlockFullness::Full,
        }
    }

    /// The level of a cell that is filled to the fraction `p / q`, strictly
    /// between empty and full. The coarse palettes call it full above 0.66 and
    /// half-full else; `Dots` calls it full above 0.75, two thirds full above
    /// 0.5, and a third full else.
    pub open spec fn partial_of(self, p: int, q: int) -> BlockFullness {
        match self {
            WaveCharset::Dots => if 4 * p > 3 * q {
                BlockFullness::Full
            } else if 2 * p > q {
                BlockFullness::TwoThird
            } else {
                BlockFullness::Third
            },
            _ => if 100 * p > 66 * q {
                BlockFullness::Full
            } else {
                BlockFullness::Half
            },
        }
    }

    /// The level of the cell in row `row` of a column that is `numer / denom`
    /// rows high: empty where the column ends at or below the window's floor,
    /// or where there is no denominator to measure against; full where it
    /// reaches the window's top; else by the filled fraction.
    pub open spec fn level_of(self, numer: nat, denom: nat, row: nat) -> BlockFullness {
        let p = fill_numer(numer, denom, row);
        let q = fill_denom(denom, row);
        if denom == 0 || p <= 0 {
            BlockFullness::Empty
        } else if p >= q {
            BlockFullness::Full
        } else {
            self.partial_of(p, q)
        }
    }

    /// Choose a block fullness for a window that is partly filled.
    pub fn partial(self, window: &Window) -> (r: BlockFullness)
        ensures
            r == self.partial_of(window.fill_numer(), window.fill_denom()),
            self.supports(r),
    {
        match self {
            WaveCharset::Ascii | WaveCharset::Blocks => {
                match window.weigh_against(66, 100) {
                    Balance::Above => BlockFullness::Full,
                    _ => BlockFullness::Half,
                }
            },
            WaveCharset::Dots => {
                match window.weigh_against(3, 4) {
                    Balance::Above => BlockFullness::Full,
                    _ => match window.weigh_against(1, 2) {
                        Balance::Above => BlockFullness::TwoThird,
                        _ => BlockFullness::Third,
                    },
                }
            },
        }
    }

    /// Choose a block fullness for the window of one row on one column.
    pub fn level(self, window: &Window) -> (r: BlockFullness)
        ensures
            r == self.level_of(window.height.numer(), window.height.denom(), window.row as nat),
            self.supports(r),
    {
        if window.is_degenerate() {
            return BlockFullness::Empty;
        }
        match window.weigh_against(0, 1) {
            Balance::Above => {},
            _ => {
                return BlockFullness::Empty;
            },
        }
        match window.weigh_against(1, 1) {
            Balance::Below => self.partial(window),
            _ => BlockFullness::Full,
        }
    }

    /// The glyph of one column. It is defined for the levels that the palette
    /// supports.
    pub open spec fn glyph_single(self, pos: Position, fullness: BlockFullness) -> char {
        match self {
            WaveCharset::Ascii => ascii_single(pos, fullness),
            WaveCharset::Blocks => blocks_single(pos, fullness),
            WaveCharset::Dots => dots_single(pos, fullness),
        }
    }

    /// The glyph of two adjacent columns merged into one cell, the left one
    /// filled to `a` and the right one to `b`. Equal levels show as one column
    /// does. Else `Ascii` shows the fuller side alone; `Blocks` shows which side
    /// is empty, if one is, and a whole block if none is; `Dots` has a glyph
    /// for every pair.
    pub open spec fn glyph_pair(self, pos: Position, a: BlockFullness, b: BlockFullness) -> char {
        if a == b {
            self.glyph_single(pos, a)
        } else {
            match self {
                WaveCharset::Ascii => ascii_single(pos, a.fuller_of(b)),
                WaveCharset::Blocks => if a == BlockFullness::Empty {
                    '▐'
                } else if b == BlockFullness::Empty {
                    '▌'
                } else {
                    '█'
                },
                WaveCharset::Dots => dots_pair(pos, a, b),
            }
        }
    }

    /// Choose a character to render the fullness at one column per cell. A
    /// level that the palette does not have is a defect of the caller.
    pub fn render_single(self, pos: Position, fullness: BlockFullness) -> (c: char)
        requires
            self.supports(fullness),
        ensures
            c == self.glyph_single(pos, fullness),
    {
        match self {
            WaveCharset::Ascii => match fullness {
                BlockFullness::Empty => ' ',
                BlockFullness::Half => match pos {
                    Position::Upper => ',',
                    Position::Lower => '\'',
                    Position::Middle => '*',
                },
                BlockFullness::Full => '#',
                _ => unreached(),
            },
            WaveCharset::Blocks => match fullness {
                BlockFullness::Empty => ' ',
                BlockFullness::Half => match pos {
                    Position::Upper => '▄',
                    Position::Lower => '▀',
                    Position::Middle => '█',
                },
                BlockFullness::Full => '█',
                _ => unreached(),
            },
            WaveCharset::Dots => match fullness {
                BlockFullness::Empty => '⠀',
                BlockFullness::Third => match pos {
                    Position::Upper => '⠤',
                    Position::Lower => '⠉',
                    Position::Middle => '⠒',
                },
                BlockFullness::TwoThird => match pos {
                    Position::Upper => '⠶',
                    Position::Lower => '⠛',
                    Position::Middle => '⠿',
                },
                BlockFullness::Full => '⠿',
                BlockFullness::Half => unreached(),
            },
        }
    }

    /// Choose a character to render two columns in one cell: `fullness` holds
    /// the level of the left column, then that of the right one.
    pub fn render_double(self, pos: Position, fullness: &[BlockFullness]) -> (c: char)
        requires
            fullness@.len() == 2,
            self.supports(fullness@[0]),
            self.supports(fullness@[1]),
        ensures
            c == self.glyph_pair(pos, fullness@[0], fullness@[1]),
    {
        let a = fullness[0];
        let b = fullness[1];
        if a == b {
            return self.render_single(pos, a);
        }
        match self {
            WaveCharset::Ascii => self.render_single(pos, a.fuller(b)),
            WaveCharset::Blocks => match (a, b) {
                (BlockFullness::Empty, _) => '▐',
                (_, BlockFullness::Empty) => '▌',
                _ => '█',
            },
            WaveCharset::Dots => match (a, b) {
                (BlockFullness::Empty, BlockFullness::Third) => match pos {
                    Position::Upper => '⠠',
                    Position::Lower => '⠈',
                    Position::Middle => '⠐',
                },
                (BlockFullness::Empty, BlockFullness::TwoThird) => match pos {
                    Position::Upper => '⠰',
                    Position::Lower => '⠘',
                    Position::Middle => '⠸',
                },
                (BlockFullness::Empty, BlockFullness::Full) => '⠸',
                (BlockFullness::Third, BlockFullness::Empty) => match pos {
                    Position::Upper => '⠄',
                    Position::Lower => '⠁',
                    Position::Middle => '⠇',
                },
                (BlockFullness::Third, BlockFullness::TwoThird) => match pos {
                    Position::Upper => '⠴',
                    Position::Lower => '⠙',
                    Position::Middle => '⠿',
                },
                (BlockFullness::Third, BlockFullness::Full) => match pos {
                    Position::Upper => '⠼',
                    Position::Lower => '⠹',
                    Position::Middle => '⠿',
                },
                (BlockFullness::TwoThird, BlockFullness::Empty) => match pos {
                    Position::Upper => '⠆',
                    Position::Lower => '⠃',
                    Position::Middle => '⠇',
                },
                (BlockFullness::TwoThird, BlockFullness::Third) => match pos {
                    Position::Upper => '⠦',
                    Position::Lower => '⠙',
                    Position::Middle => '⠿',
                },
                (BlockFullness::TwoThird, BlockFullness::Full) => match pos {
                    Position::Upper => '⠾',
                    Position::Lower => '⠻',
                    Position::Middle => '⠿',
                },
                (BlockFullness::Full, BlockFullness::Empty) => '⠇',
                (BlockFullness::Full, BlockFullness::Third) => match pos {
                    Position::Upper => '⠧',
                    Position::Lower => '⠏',
                    Position::Middle => '⠿',
                },
                (BlockFullness::Full, BlockFullness::TwoThird) => match pos {
                    Position::Upper => '⠷',
                    Position::Lower => '⠟',
                    Position::Middle => '⠿',
                },
                _ => unreached(),
            },
        }
    }
}

} // verus!
