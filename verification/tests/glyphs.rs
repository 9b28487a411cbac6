use wave_art::charset::WaveCharset;
use wave_art::fullness::{BlockFullness, Position};

const POSITIONS: [Position; 3] = [Position::Upper, Position::Lower, Position::Middle];

fn triple(charset: WaveCharset, fullness: BlockFullness) -> String {
    POSITIONS.iter().map(|&pos| charset.render_single(pos, fullness)).collect()
}

fn pair_triple(charset: WaveCharset, a: BlockFullness, b: BlockFullness) -> String {
    POSITIONS.iter().map(|&pos| charset.render_double(pos, &[a, b])).collect()
}

#[test]
fn default_charset_is_blocks() {
    assert_eq!(WaveCharset::default(), WaveCharset::Blocks);
}

#[test]
fn fullness_ranks_run_from_zero_to_four() {
    assert_eq!(BlockFullness::Empty.rank(), 0);
    assert_eq!(BlockFullness::Third.rank(), 1);
    assert_eq!(BlockFullness::Half.rank(), 2);
    assert_eq!(BlockFullness::TwoThird.rank(), 3);
    assert_eq!(BlockFullness::Full.rank(), 4);
}

#[test]
fn fullness_order_agrees_with_rank() {
    let levels = [
        BlockFullness::Empty,
        BlockFullness::Third,
        BlockFullness::Half,
        BlockFullness::TwoThird,
        BlockFullness::Full,
    ];
    for &a in &levels {
        for &b in &levels {
            assert_eq!(a < b, a.rank() < b.rank());
            assert_eq!(a.max(b), a.fuller(b));
        }
    }
}

#[test]
fn fuller_keeps_the_higher_level() {
    assert_eq!(BlockFullness::Empty.fuller(BlockFullness::Half), BlockFullness::Half);
    assert_eq!(BlockFullness::Full.fuller(BlockFullness::Half), BlockFullness::Full);
    assert_eq!(BlockFullness::Third.fuller(BlockFullness::Third), BlockFullness::Third);
}

#[test]
fn ascii_single_glyphs() {
    assert_eq!(triple(WaveCharset::Ascii, BlockFullness::Empty), "   ");
    assert_eq!(triple(WaveCharset::Ascii, BlockFullness::Half), ",'*");
    assert_eq!(triple(WaveCharset::Ascii, BlockFullness::Full), "###");
}

#[test]
fn blocks_single_glyphs() {
    assert_eq!(triple(WaveCharset::Blocks, BlockFullness::Empty), "   ");
    assert_eq!(triple(WaveCharset::Blocks, BlockFullness::Half), "▄▀█");
    assert_eq!(triple(WaveCharset::Blocks, BlockFullness::Full), "███");
}

#[test]
fn dots_single_glyphs() {
    assert_eq!(triple(WaveCharset::Dots, BlockFullness::Empty), "⠀⠀⠀");
    assert_eq!(triple(WaveCharset::Dots, BlockFullness::Third), "⠤⠉⠒");
    assert_eq!(triple(WaveCharset::Dots, BlockFullness::TwoThird), "⠶⠛⠿");
    assert_eq!(triple(WaveCharset::Dots, BlockFullness::Full), "⠿⠿⠿");
}

#[test]
fn dots_empty_glyph_is_the_blank_braille_cell() {
    assert_eq!(
        WaveCharset::Dots.render_single(Position::Middle, BlockFullness::Empty),
        '\u{2800}'
    );
}

#[test]
fn equal_pairs_render_as_single() {
    let charsets = [WaveCharset::Ascii, WaveCharset::Blocks];
    let coarse = [BlockFullness::Empty, BlockFullness::Half, BlockFullness::Full];
    for &charset in &charsets {
        for &level in &coarse {
            assert_eq!(pair_triple(charset, level, level), triple(charset, level));
        }
    }
    let fine = [
        BlockFullness::Empty,
        BlockFullness::Third,
        BlockFullness::TwoThird,
        BlockFullness::Full,
    ];
    for &level in &fine {
        assert_eq!(
            pair_triple(WaveCharset::Dots, level, level),
            triple(WaveCharset::Dots, level)
        );
    }
}

#[test]
fn ascii_double_takes_the_fuller_side() {
    let c = WaveCharset::Ascii;
    assert_eq!(pair_triple(c, BlockFullness::Empty, BlockFullness::Half), ",'*");
    assert_eq!(pair_triple(c, BlockFullness::Half, BlockFullness::Empty), ",'*");
    assert_eq!(pair_triple(c, BlockFullness::Empty, BlockFullness::Full), "###");
    assert_eq!(pair_triple(c, BlockFullness::Full, BlockFullness::Empty), "###");
    assert_eq!(pair_triple(c, BlockFullness::Half, BlockFullness::Full), "###");
    assert_eq!(pair_triple(c, BlockFullness::Full, BlockFullness::Half), "###");
}

#[test]
fn blocks_double_tells_which_side_is_empty() {
    let c = WaveCharset::Blocks;
    assert_eq!(pair_triple(c, BlockFullness::Empty, BlockFullness::Half), "▐▐▐");
    assert_eq!(pair_triple(c, BlockFullness::Empty, BlockFullness::Full), "▐▐▐");
    assert_eq!(pair_triple(c, BlockFullness::Half, BlockFullness::Empty), "▌▌▌");
    assert_eq!(pair_triple(c, BlockFullness::Full, BlockFullness::Empty), "▌▌▌");
    assert_eq!(pair_triple(c, BlockFullness::Half, BlockFullness::Full), "███");
    assert_eq!(pair_triple(c, BlockFullness::Full, BlockFullness::Half), "███");
}

#[test]
fn dots_double_left_empty() {
    let c = WaveCharset::Dots;
    assert_eq!(pair_triple(c, BlockFullness::Empty, BlockFullness::Third), "⠠⠈⠐");
    assert_eq!(pair_triple(c, BlockFullness::Empty, BlockFullness::TwoThird), "⠰⠘⠸");
    assert_eq!(pair_triple(c, BlockFullness::Empty, BlockFullness::Full), "⠸⠸⠸");
}

#[test]
fn dots_double_left_third() {
    let c = WaveCharset::Dots;
    assert_eq!(pair_triple(c, BlockFullness::Third, BlockFullness::Empty), "⠄⠁⠇");
    assert_eq!(pair_triple(c, BlockFullness::Third, BlockFullness::TwoThird), "⠴⠙⠿");
    assert_eq!(pair_triple(c, BlockFullness::Third, BlockFullness::Full), "⠼⠹⠿");
}

#[test]
fn dots_double_left_two_thirds() {
    let c = WaveCharset::Dots;
    assert_eq!(pair_triple(c, BlockFullness::TwoThird, BlockFullness::Empty), "⠆⠃⠇");
    assert_eq!(pair_triple(c, BlockFullness::TwoThird, BlockFullness::Third), "⠦⠙⠿");
    assert_eq!(pair_triple(c, BlockFullness::TwoThird, BlockFullness::Full), "⠾⠻⠿");
}

#[test]
fn dots_double_left_full() {
    let c = WaveCharset::Dots;
    assert_eq!(pair_triple(c, BlockFullness::Full, BlockFullness::Empty), "⠇⠇⠇");
    assert_eq!(pair_triple(c, BlockFullness::Full, BlockFullness::Third), "⠧⠏⠿");
    assert_eq!(pair_triple(c, BlockFullness::Full, BlockFullness::TwoThird), "⠷⠟⠿");
}

#[test]
fn dots_double_by_code_point() {
    let c = WaveCharset::Dots;
    let e = BlockFullness::Empty;
    let t = BlockFullness::Third;
    let w = BlockFullness::TwoThird;
    let f = BlockFullness::Full;
    let code = |a, b, pos| c.render_double(pos, &[a, b]) as u32 - 0x2800;
    assert_eq!(code(e, t, Position::Upper), 0x20);
    assert_eq!(code(e, t, Position::Lower), 0x08);
    assert_eq!(code(e, t, Position::Middle), 0x10);
    assert_eq!(code(t, e, Position::Upper), 0x04);
    assert_eq!(code(t, e, Position::Lower), 0x01);
    assert_eq!(code(t, e, Position::Middle), 0x07);
    assert_eq!(code(w, t, Position::Lower), 0x19);
    assert_eq!(code(t, w, Position::Lower), 0x19);
    assert_eq!(code(f, w, Position::Upper), 0x37);
    assert_eq!(code(w, f, Position::Upper), 0x3e);
    assert_eq!(code(f, e, Position::Upper), 0x07);
    assert_eq!(code(e, f, Position::Upper), 0x38);
}
