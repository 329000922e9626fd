use glyphydog::buffer::GlyphRun;
use glyphydog::geometry::{Point, Vector};
use glyphydog::glyph::{GlyphInfo, GlyphPosition, ShapedGlyph, ShapedGlyphIter};

fn position(x_advance: i32, y_advance: i32, x_offset: i32, y_offset: i32) -> GlyphPosition {
    GlyphPosition { x_advance, y_advance, x_offset, y_offset }
}

#[test]
fn pen_walk_accumulates_pixel_advances() {
    let positions =
        vec![position(640, 0, 3, -2), position(-130, 64, 0, 0), position(63, -63, 1, 1)];
    let infos = vec![
        GlyphInfo { codepoint: 7, cluster: 0 },
        GlyphInfo { codepoint: 8, cluster: 1 },
        GlyphInfo { codepoint: 9, cluster: 4 },
    ];
    let mut iter = ShapedGlyphIter::new(&positions, &infos, 100);
    assert_eq!(iter.len(), 3);
    assert_eq!(
        iter.next(),
        Some(ShapedGlyph {
            glyph_index: 7,
            advance: Vector { x: 10, y: 0 },
            pos: Point { x: 3, y: -2 },
            str_index: 100,
            word_str_index: 0,
        })
    );
    assert_eq!(iter.cursor(), Point { x: 10, y: 0 });
    // -130 / 64 rounds toward zero.
    assert_eq!(
        iter.next(),
        Some(ShapedGlyph {
            glyph_index: 8,
            advance: Vector { x: -2, y: 1 },
            pos: Point { x: 10, y: 0 },
            str_index: 101,
            word_str_index: 1,
        })
    );
    assert_eq!(iter.len(), 1);
    // Less than a pixel either way is no movement.
    assert_eq!(
        iter.next(),
        Some(ShapedGlyph {
            glyph_index: 9,
            advance: Vector { x: 0, y: 0 },
            pos: Point { x: 9, y: 2 },
            str_index: 104,
            word_str_index: 4,
        })
    );
    assert_eq!(iter.cursor(), Point { x: 8, y: 1 });
    assert_eq!(iter.next(), None);
    assert_eq!(iter.next(), None);
    assert_eq!(iter.len(), 0);
}

#[test]
fn empty_run_yields_nothing() {
    let mut iter = ShapedGlyphIter::new(&[], &[], 0);
    assert_eq!(iter.len(), 0);
    assert_eq!(iter.next(), None);
    assert_eq!(iter.cursor(), Point { x: 0, y: 0 });
}

#[test]
fn run_fits_checks_lengths_and_ranges() {
    let ok = GlyphRun {
        positions: vec![position(64, 0, 0, 0)],
        infos: vec![GlyphInfo { codepoint: 1, cluster: 0 }],
    };
    assert!(ok.fits(0));
    assert!(ok.fits(usize::MAX));

    let uneven = GlyphRun { positions: vec![position(64, 0, 0, 0)], infos: vec![] };
    assert!(!uneven.fits(0));

    let far = GlyphRun {
        positions: vec![position(64, 0, 0, 0)],
        infos: vec![GlyphInfo { codepoint: 1, cluster: 1 }],
    };
    assert!(!far.fits(usize::MAX));

    let wide = GlyphRun {
        positions: vec![position(64, 0, i32::MAX, 0), position(0, 0, i32::MAX, 0)],
        infos: vec![GlyphInfo { codepoint: 1, cluster: 0 }, GlyphInfo { codepoint: 2, cluster: 1 }],
    };
    assert!(!wide.fits(0));

    let edge = GlyphRun {
        positions: vec![position(64, 0, i32::MAX - 1, 0), position(0, 0, i32::MAX - 1, 0)],
        infos: vec![GlyphInfo { codepoint: 1, cluster: 0 }, GlyphInfo { codepoint: 2, cluster: 1 }],
    };
    assert!(edge.fits(0));

    let long = GlyphRun {
        positions: vec![position(i32::MAX, i32::MIN, 0, 0); 65],
        infos: vec![GlyphInfo { codepoint: 1, cluster: 0 }; 65],
    };
    assert!(!long.fits(0));
    let shorter = GlyphRun {
        positions: vec![position(i32::MAX, i32::MIN, 0, 0); 64],
        infos: vec![GlyphInfo { codepoint: 1, cluster: 0 }; 64],
    };
    assert!(shorter.fits(0));
}
