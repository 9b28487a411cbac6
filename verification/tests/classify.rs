use wave_art::charset::WaveCharset;
use wave_art::classify::{classify, EmptyInputError};
use wave_art::fullness::BlockFullness;
use wave_art::fullness::BlockFullness::{Empty, Full, Half, Third, TwoThird};
use wave_art::magnitude::Magnitude;
use wave_art::window::{Height, Window};

fn mag(x: f32) -> Magnitude {
    Magnitude::from_bits(x.to_bits()).unwrap()
}

fn mags(xs: &[f32]) -> Vec<Magnitude> {
    xs.iter().map(|&x| mag(x)).collect()
}

fn centerline(charset: WaveCharset, x: f32) -> BlockFullness {
    classify(1, &[mag(x)], false, charset).unwrap()[0][0]
}

#[test]
fn no_magnitudes_no_grid() {
    assert_eq!(classify(3, &[], true, WaveCharset::Blocks), Err(EmptyInputError));
    assert_eq!(classify(3, &[], false, WaveCharset::Dots), Err(EmptyInputError));
}

#[test]
fn grid_has_a_row_per_height_and_a_level_per_magnitude() {
    let rows = classify(4, &mags(&[0.1, 0.2, 0.3]), true, WaveCharset::Blocks).unwrap();
    assert_eq!(rows.len(), 4);
    for row in &rows {
        assert_eq!(row.len(), 3);
    }
}

#[test]
fn centerline_of_the_coarse_palettes() {
    for charset in [WaveCharset::Ascii, WaveCharset::Blocks] {
        assert_eq!(centerline(charset, 0.0), Empty);
        assert_eq!(centerline(charset, 0.25), Half);
        assert_eq!(centerline(charset, 0.3125), Half);
        assert_eq!(centerline(charset, 0.34375), Full);
        assert_eq!(centerline(charset, 0.5), Full);
        assert_eq!(centerline(charset, 7.0), Full);
    }
}

#[test]
fn centerline_of_dots() {
    let c = WaveCharset::Dots;
    assert_eq!(centerline(c, 0.0), Empty);
    assert_eq!(centerline(c, 0.125), Third);
    assert_eq!(centerline(c, 0.25), Third);
    assert_eq!(centerline(c, 0.3125), TwoThird);
    assert_eq!(centerline(c, 0.375), TwoThird);
    assert_eq!(centerline(c, 0.40625), Full);
    assert_eq!(centerline(c, 0.5), Full);
}

#[test]
fn the_smallest_magnitude_still_shows() {
    let tiny = Magnitude::from_bits(1).unwrap();
    let blocks = classify(1, &[tiny], false, WaveCharset::Blocks).unwrap();
    assert_eq!(blocks[0][0], Half);
    let dots = classify(1, &[tiny], false, WaveCharset::Dots).unwrap();
    assert_eq!(dots[0][0], Third);
}

#[test]
fn thresholds_are_exact() {
    let just_over = Magnitude { mantissa: 0x80_0001, shift: 125 };
    let just_under = Magnitude { mantissa: 0xFF_FFFF, shift: 124 };
    let rows = classify(2, &[mag(0.5), just_over, just_under], false, WaveCharset::Blocks).unwrap();
    assert_eq!(rows[0], vec![Full, Full, Full]);
    assert_eq!(rows[1], vec![Half, Half, Half]);
    let rows = classify(1, &[mag(0.5), just_over, just_under], false, WaveCharset::Blocks).unwrap();
    assert_eq!(rows[0], vec![Full, Full, Full]);
    let rows = classify(1, &[mag(0.25), mag(0.375)], false, WaveCharset::Dots).unwrap();
    assert_eq!(rows[0], vec![Third, TwoThird]);
}

#[test]
fn outer_rows_unscaled_blocks() {
    let rows = classify(3, &mags(&[0.5, 0.625, 0.75, 1.0]), false, WaveCharset::Blocks).unwrap();
    assert_eq!(rows[0], vec![Full, Full, Full, Full]);
    assert_eq!(rows[1], vec![Full, Full, Full, Full]);
    assert_eq!(rows[2], vec![Empty, Half, Full, Full]);
}

#[test]
fn outer_rows_unscaled_dots() {
    let rows = classify(3, &mags(&[0.5, 0.625, 0.75, 1.0]), false, WaveCharset::Dots).unwrap();
    assert_eq!(rows[0], vec![Full, Full, Full, Full]);
    assert_eq!(rows[1], vec![Full, Full, Full, Full]);
    assert_eq!(rows[2], vec![Empty, Third, TwoThird, Full]);
}

#[test]
fn first_outer_row_begins_half_a_row_up() {
    let rows = classify(2, &mags(&[0.25, 0.3125, 0.5, 0.625, 0.75]), false, WaveCharset::Dots)
        .unwrap();
    assert_eq!(rows[0], vec![Full, Full, Full, Full, Full]);
    assert_eq!(rows[1], vec![Empty, Third, Third, TwoThird, Full]);
}

#[test]
fn scaled_to_fit() {
    let blocks = classify(2, &mags(&[1.0, 2.0, 4.0]), true, WaveCharset::Blocks).unwrap();
    assert_eq!(blocks[0], vec![Full, Full, Full]);
    assert_eq!(blocks[1], vec![Empty, Half, Full]);
    let dots = classify(2, &mags(&[1.0, 2.0, 4.0]), true, WaveCharset::Dots).unwrap();
    assert_eq!(dots[0], vec![TwoThird, Full, Full]);
    assert_eq!(dots[1], vec![Empty, Third, Full]);
}

#[test]
fn scaled_to_fit_on_one_row() {
    let blocks = classify(1, &mags(&[1.0, 2.0, 4.0]), true, WaveCharset::Blocks).unwrap();
    assert_eq!(blocks[0], vec![Half, Half, Full]);
    let dots = classify(1, &mags(&[1.0, 2.0, 4.0]), true, WaveCharset::Dots).unwrap();
    assert_eq!(dots[0], vec![Third, Third, Full]);
}

#[test]
fn the_loudest_column_reaches_the_top_row() {
    let rows = classify(4, &mags(&[3.0, 7.0, 6.0]), true, WaveCharset::Blocks).unwrap();
    for row in &rows {
        assert_eq!(row[1], Full);
    }
    assert_eq!(rows[3][2], Half);
    assert_eq!(rows[3][0], Empty);
}

#[test]
fn silence_scaled_is_empty_not_an_error() {
    let rows = classify(3, &mags(&[0.0, 0.0]), true, WaveCharset::Blocks).unwrap();
    assert_eq!(rows, vec![vec![Empty, Empty]; 3]);
    let rows = classify(3, &mags(&[0.0, -0.0]), false, WaveCharset::Dots).unwrap();
    assert_eq!(rows, vec![vec![Empty, Empty]; 3]);
}

#[test]
fn fullness_never_rises_outward() {
    let input = mags(&[0.0, 0.01, 0.1, 0.3, 0.33, 0.5, 0.66, 0.75, 0.9, 1.0, 2.0]);
    for charset in [WaveCharset::Ascii, WaveCharset::Blocks, WaveCharset::Dots] {
        for scale in [false, true] {
            let rows = classify(6, &input, scale, charset).unwrap();
            for col in 0..input.len() {
                for y in 1..rows.len() {
                    assert!(rows[y][col].rank() <= rows[y - 1][col].rank());
                    if rows[y][col] == Full {
                        assert_eq!(rows[y - 1][col], Full);
                    }
                }
            }
        }
    }
}

#[test]
fn huge_magnitudes_saturate() {
    let rows = classify(7, &mags(&[1.0, 1e30, f32::MAX]), false, WaveCharset::Dots).unwrap();
    assert_eq!(rows, vec![vec![Full, Full, Full]; 7]);
}

#[test]
fn level_of_a_window() {
    let height = Height { column: mag(3.0), factor: 1, base: mag(1.0) };
    let c = WaveCharset::Dots;
    assert_eq!(c.level(&Window { height, row: 0 }), Full);
    assert_eq!(c.level(&Window { height, row: 1 }), Full);
    assert_eq!(c.level(&Window { height, row: 2 }), Empty);
    let height = Height { column: mag(3.0), factor: 1, base: mag(0.0) };
    assert_eq!(c.level(&Window { height, row: 0 }), Empty);
}

#[test]
fn partial_level_of_a_window() {
    let c = WaveCharset::Dots;
    let b = WaveCharset::Blocks;
    let at = |x: f32| Window { height: Height { column: mag(x), factor: 1, base: mag(0.5) }, row: 1 };
    assert_eq!(c.partial(&at(0.75)), Third);
    assert_eq!(c.partial(&at(1.0)), Third);
    assert_eq!(c.partial(&at(1.125)), TwoThird);
    assert_eq!(c.partial(&at(1.25)), TwoThird);
    assert_eq!(c.partial(&at(1.375)), Full);
    assert_eq!(b.partial(&at(1.125)), Half);
    assert_eq!(b.partial(&at(1.1875)), Full);
}
