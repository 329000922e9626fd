use glyphydog::bridge::{
    contour_point, contour_point_index, font_h_extents, glyph_extents, glyph_h_advance,
    glyph_h_kerning, glyph_name, glyph_v_advance, glyph_v_origin, kerning_mode, nominal_glyph,
    nominal_glyph_probed, succeeded, variation_glyph, FontExtents, FontFuncData, GlyphExtents, KerningMode,
    NominalGlyph, SizeMetrics, SlotMetrics, ENCODING_MS_SYMBOL, GLYPH_FORMAT_OUTLINE,
};

fn metrics(x_scale: i64, y_scale: i64) -> SizeMetrics {
    SizeMetrics {
        x_ppem: 16,
        y_ppem: 16,
        x_scale,
        y_scale,
        ascender: 960,
        descender: -256,
        height: 1280,
        max_advance: 1100,
    }
}

fn slot() -> SlotMetrics {
    SlotMetrics {
        width: 500,
        height: 700,
        hori_bearing_x: 40,
        hori_bearing_y: 690,
        hori_advance: 600,
        vert_bearing_x: -300,
        vert_bearing_y: 90,
        vert_advance: 1280,
    }
}

/// A character map given as pairs of code point and glyph.
fn lookup(map: &[(u32, u32)], code: u32) -> u32 {
    map.iter().find(|(c, _)| *c == code).map(|(_, g)| *g).unwrap_or(0)
}

/// The whole nominal glyph query against a character map.
fn query(data: &FontFuncData, map: &[(u32, u32)], unicode: u32) -> Option<u32> {
    match nominal_glyph(data, unicode, lookup(map, unicode)) {
        NominalGlyph::Found(glyph) => Some(glyph),
        NominalGlyph::Probe(code) => nominal_glyph_probed(lookup(map, code)),
        NominalGlyph::Missing => None,
    }
}

#[test]
fn font_func_data_for_a_face() {
    let plain = FontFuncData::new(Some(0x756E_6963));
    assert_eq!(plain.load_flags, 2);
    assert!(!plain.symbol);
    assert!(FontFuncData::new(Some(ENCODING_MS_SYMBOL)).symbol);
    assert!(!FontFuncData::new(None).symbol);
    assert_eq!(plain.h_advance_flags(), 2);
    assert_eq!(plain.v_advance_flags(), 2 | 16);
}

#[test]
fn extents_of_an_upright_face() {
    assert_eq!(
        font_h_extents(&metrics(65536, 65536)),
        FontExtents { ascender: 960, descender: -256, line_gap: 1280 - (960 + 256) }
    );
    assert_eq!(
        font_h_extents(&metrics(65536, 0)),
        FontExtents { ascender: 960, descender: -256, line_gap: 64 }
    );
}

#[test]
fn mirrored_extents_flip_together() {
    let plain = font_h_extents(&metrics(65536, 65536));
    let mirror = font_h_extents(&metrics(65536, -65536));
    assert_eq!(mirror.ascender, -plain.ascender);
    assert_eq!(mirror.descender, -plain.descender);
    assert_eq!(mirror.line_gap, -plain.line_gap);
    assert_eq!(mirror, FontExtents { ascender: -960, descender: 256, line_gap: -64 });
    // The horizontal scale has no part in it.
    assert_eq!(font_h_extents(&metrics(-65536, 65536)), plain);
}

#[test]
fn extents_keep_the_low_bits_of_large_values() {
    let mut m = metrics(1, 1);
    m.ascender = 0x1_0000_0005;
    m.descender = i64::MIN;
    m.height = i64::MAX;
    let e = font_h_extents(&m);
    assert_eq!(e.ascender, 5);
    assert_eq!(e.descender, 0);
    assert_eq!(e.line_gap, -1 - 5);
}

#[test]
fn symbol_font_falls_back_to_the_symbol_area() {
    let symbol = FontFuncData::new(Some(ENCODING_MS_SYMBOL));
    let map = [(0xF041, 37)];
    assert_eq!(nominal_glyph(&symbol, 0x41, 0), NominalGlyph::Probe(0xF041));
    assert_eq!(query(&symbol, &map, 0x41), Some(37));
    // A code point behind the limit is not probed.
    assert_eq!(nominal_glyph(&symbol, 0x100, 0), NominalGlyph::Missing);
    assert_eq!(nominal_glyph(&symbol, 0xFF, 0), NominalGlyph::Probe(0xF0FF));
    // Nothing in the symbol area either.
    assert_eq!(query(&symbol, &map, 0x42), None);
    // The character map's own answer wins.
    assert_eq!(query(&symbol, &[(0x41, 5), (0xF041, 37)], 0x41), Some(5));
}

#[test]
fn plain_font_does_not_fall_back() {
    let plain = FontFuncData::new(Some(0x756E_6963));
    let map = [(0xF041, 37), (0x61, 68)];
    assert_eq!(query(&plain, &map, 0x41), None);
    assert_eq!(query(&plain, &map, 0x61), Some(68));
    assert_eq!(nominal_glyph(&plain, 0x41, 0), NominalGlyph::Missing);
}

#[test]
fn variation_glyph_fails_on_zero() {
    assert_eq!(variation_glyph(0), None);
    assert_eq!(variation_glyph(12), Some(12));
}

#[test]
fn advances_round_to_whole_units() {
    let m = metrics(65536, 65536);
    assert_eq!(glyph_h_advance(0, 0, &m), 0);
    assert_eq!(glyph_h_advance(0, 31, &m), 0);
    assert_eq!(glyph_h_advance(0, 32, &m), 1);
    assert_eq!(glyph_h_advance(0, 640, &m), 10);
    assert_eq!(glyph_h_advance(0, 671, &m), 10);
    assert_eq!(glyph_h_advance(0, 672, &m), 11);
    assert_eq!(glyph_h_advance(0, -32, &m), 0);
    assert_eq!(glyph_h_advance(0, -33, &m), -1);
    assert_eq!(glyph_h_advance(0, i64::MAX, &m), 0);
    assert_eq!(glyph_v_advance(0, 672, &m), 11);
}

#[test]
fn advances_are_negated_on_a_mirrored_axis() {
    let flipped_x = metrics(-65536, 65536);
    let flipped_y = metrics(65536, -65536);
    assert_eq!(glyph_h_advance(0, 672, &flipped_x), -11);
    assert_eq!(glyph_h_advance(0, 672, &flipped_y), 11);
    assert_eq!(glyph_v_advance(0, 672, &flipped_y), -11);
    assert_eq!(glyph_v_advance(0, 672, &flipped_x), 11);
    assert_eq!(glyph_h_advance(0, 32, &flipped_x), -1);
}

#[test]
fn failed_advance_is_zero() {
    let m = metrics(65536, 65536);
    assert_eq!(glyph_h_advance(6, 672, &m), 0);
    assert_eq!(glyph_v_advance(-1, 672, &m), 0);
}

#[test]
fn vertical_origin_from_bearings() {
    assert_eq!(glyph_v_origin(0, &slot(), &metrics(65536, 65536)), Some((340, 780)));
    assert_eq!(glyph_v_origin(0, &slot(), &metrics(-65536, 65536)), Some((-340, 780)));
    assert_eq!(glyph_v_origin(0, &slot(), &metrics(65536, -65536)), Some((340, -780)));
    assert_eq!(glyph_v_origin(0, &slot(), &metrics(-1, -1)), Some((-340, -780)));
    assert_eq!(glyph_v_origin(16, &slot(), &metrics(65536, 65536)), None);
}

#[test]
fn kerning_mode_and_distance() {
    let mut m = metrics(65536, 65536);
    assert_eq!(kerning_mode(&m), KerningMode::Default);
    m.x_ppem = 0;
    assert_eq!(kerning_mode(&m), KerningMode::Unfitted);
    assert_eq!(KerningMode::Default.raw(), 0);
    assert_eq!(KerningMode::Unfitted.raw(), 1);
    assert_eq!(glyph_h_kerning(0, -48), -48);
    assert_eq!(glyph_h_kerning(0, 0x1_0000_0007), 7);
    assert_eq!(glyph_h_kerning(6, -48), 0);
}

#[test]
fn glyph_extents_from_the_slot() {
    assert_eq!(
        glyph_extents(0, &slot(), &metrics(65536, 65536)),
        Some(GlyphExtents { x_bearing: 40, y_bearing: 690, width: 500, height: 700 })
    );
    assert_eq!(
        glyph_extents(0, &slot(), &metrics(-65536, 65536)),
        Some(GlyphExtents { x_bearing: -40, y_bearing: 690, width: -500, height: 700 })
    );
    assert_eq!(
        glyph_extents(0, &slot(), &metrics(65536, -65536)),
        Some(GlyphExtents { x_bearing: 40, y_bearing: -690, width: 500, height: -700 })
    );
    assert_eq!(glyph_extents(20, &slot(), &metrics(65536, 65536)), None);
}

#[test]
fn contour_point_needs_an_outline_and_an_index_in_range() {
    assert_eq!(contour_point_index(0, GLYPH_FORMAT_OUTLINE, 12, 11), Some(11));
    assert_eq!(contour_point_index(0, GLYPH_FORMAT_OUTLINE, 12, 0), Some(0));
    assert_eq!(contour_point_index(0, GLYPH_FORMAT_OUTLINE, 12, 12), None);
    assert_eq!(contour_point_index(0, GLYPH_FORMAT_OUTLINE, 0, 0), None);
    assert_eq!(contour_point_index(0, GLYPH_FORMAT_OUTLINE, -3, 0), None);
    assert_eq!(contour_point_index(0, 0x6269_7473, 12, 3), None);
    assert_eq!(contour_point_index(18, GLYPH_FORMAT_OUTLINE, 12, 3), None);
    assert_eq!(contour_point(-70, 0x1_0000_0002), (-70, 2));
}

#[test]
fn glyph_name_is_found_when_the_engine_reports_no_error() {
    assert!(glyph_name(0));
    assert!(!glyph_name(6));
    assert!(!glyph_name(-1));
    assert!(!glyph_name(i32::MAX));
    assert!(succeeded(0));
    assert!(!succeeded(16));
}
