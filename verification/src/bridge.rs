//! The metrics bridge: what each font query of the shaping engine answers,
//! given what the rasterization engine reports for the face.
//!
//! The engine's values are 64-bit; the shaping engine's positions are 32-bit.
//! Every answer is the exact value reduced to its low 32 bits, which leaves a
//! value that fits unchanged.

use crate::flags::{LOAD_DEFAULT, LOAD_NO_HINTING, LOAD_VERTICAL_LAYOUT};
use vstd::prelude::*;

verus! {

/// Tag of the legacy symbol encoding of a character map.
pub const ENCODING_MS_SYMBOL: u32 = 0x7379_6D62;

/// Tag of the glyph format that holds a scalable outline.
pub const GLYPH_FORMAT_OUTLINE: u32 = 0x6F75_746C;

/// First code point of the private-use block in which symbol fonts keep
/// their glyphs.
pub const SYMBOL_AREA: u32 = 0xF000;

/// Highest code point that is looked up again in the symbol area.
pub const SYMBOL_LIMIT: u32 = 0xFF;

/// Half of one unit of a 26.6 value.
pub const HALF_UNIT: i64 = 32;

/// Number of fraction bits of a 26.6 value.
pub const FRACTION_BITS: u32 = 6;

/// Metrics of a face at its current size, as the rasterization engine holds
/// them.
#[derive(Debug, Clone, Copy, PartialEq, Eq, Hash, Structural)]
pub struct SizeMetrics {
    pub x_ppem: u16,
    pub y_ppem: u16,
    pub x_scale: i64,
    pub y_scale: i64,
    pub ascender: i64,
    pub descender: i64,
    pub height: i64,
    pub max_advance: i64,
}

/// Metrics of the glyph in a face's slot, as the rasterization engine holds
/// them.
#[derive(Debug, Clone, Copy, PartialEq, Eq, Hash, Structural)]
pub struct SlotMetrics {
    pub width: i64,
    pub height: i64,
    pub hori_bearing_x: i64,
    pub hori_bearing_y: i64,
    pub hori_advance: i64,
    pub vert_bearing_x: i64,
    pub vert_bearing_y: i64,
    pub vert_advance: i64,
}

/// Line metrics of a font in the shaping engine's units.
#[derive(Debug, Clone, Copy, PartialEq, Eq, Hash, Structural)]
pub struct FontExtents {
    pub ascender: i32,
    pub descender: i32,
    pub line_gap: i32,
}

/// Box of a glyph in the shaping engine's units.
#[derive(Debug, Clone, Copy, PartialEq, Eq, Hash, Structural)]
pub struct GlyphExtents {
    pub x_bearing: i32,
    pub y_bearing: i32,
    pub width: i32,
    pub height: i32,
}

/// How kerning distances are to be reported.
#[derive(Debug, Clone, Copy, PartialEq, Eq, Hash, Structural)]
pub enum KerningMode {
    /// Scaled and fitted to the pixel grid.
    Default,
    /// Scaled but not fitted.
    Unfitted,
}

/// What the queries of one font share: the flags with which glyphs are
/// loaded, and whether the face's character map uses the symbol encoding.
#[derive(Debug, Clone, Copy, PartialEq, Eq, Hash, Structural)]
pub struct FontFuncData {
    pub load_flags: u32,
    pub symbol: bool,
}

/// Outcome of the first step of a nominal glyph lookup.
#[derive(Debug, Clone, Copy, PartialEq, Eq, Hash, Structural)]
pub enum NominalGlyph {
    /// The character map holds the code point: this is its glyph.
    Found(u32),
    /// The character map is to be asked again, for this code point.
    Probe(u32),
    /// The face has no glyph for the code point.
    Missing,
}

/// The low 32 bits of `v`, read as a signed number.
pub open spec fn to_position(v: int) -> i32 {
    v as i32
}

/// `v`, or its negative where the axis is mirrored, that is where its scale
/// is negative.
pub open spec fn mirrored(scale: i64, v: int) -> int {
    if scale < 0 {
        -v
    } else {
        v
    }
}

/// A 26.6 value rounded to whole units: half a unit is added and the
/// fraction bits are shifted out, which rounds the sum down.
pub open spec fn rounded(raw: int) -> int {
    (raw + HALF_UNIT) / 64
}

/// The low 32 bits of `v`.
fn position(v: i128) -> (p: i32)
    ensures
        p == to_position(v as int),
{
    #[verifier::truncate]
    (v as i32)
}

/// The answer for value `v` on an axis with the given scale.
fn mirrored_position(scale: i64, v: i128) -> (p: i32)
    requires
        -0x2_0000_0000_0000_0000 <= v <= 0x2_0000_0000_0000_0000,
    ensures
        p == to_position(mirrored(scale, v as int)),
{
    if scale < 0 {
        position(-v)
    } else {
        position(v)
    }
}

proof fn lemma_shift_rounds(raw: i64)
    by (bit_vector)
    ensures
        (raw >> 6) + ((raw >> 5) & 1) == (raw + 32) / 64,
{
}

/// `raw` rounded to whole units.
fn round_units(raw: i64) -> (units: i64)
    ensures
        units == rounded(raw as int),
{
    proof {
        lemma_shift_rounds(raw);
    }
    let bit: i64 = (raw >> 5) & 1;
    assert(0 <= bit <= 1) by (bit_vector)
        requires
            bit == (raw >> 5) & 1,
    ;
    assert(-0x200_0000_0000_0000 <= (raw >> 6) <= 0x1ff_ffff_ffff_ffff) by (bit_vector);
    (raw >> FRACTION_BITS) + bit
}

impl FontFuncData {
    /// The data for a face whose active character map has the given
    /// encoding, if it has a character map at all: glyphs are loaded unhinted,
    /// and the face counts as a symbol font exactly when the encoding is the
    /// symbol encoding.
    pub fn new(charmap_encoding: Option<u32>) -> (data: FontFuncData)
        ensures
            data.load_flags == LOAD_DEFAULT | LOAD_NO_HINTING,
            data.load_flags == LOAD_NO_HINTING,
            data.symbol == (charmap_encoding == Some(ENCODING_MS_SYMBOL)),
    {
        assert(LOAD_DEFAULT | LOAD_NO_HINTING == LOAD_NO_HINTING) by (bit_vector);
        let symbol = match charmap_encoding {
            Some(encoding) => encoding == ENCODING_MS_SYMBOL,
            None => false,
        };
        FontFuncData { load_flags: LOAD_DEFAULT | LOAD_NO_HINTING, symbol }
    }

    /// The flags with which the raw horizontal advance is requested.
    pub fn h_advance_flags(&self) -> (flags: u32)
        ensures
            flags == self.load_flags,
    {
        self.load_flags
    }

    /// The flags with which the raw vertical advance is requested: the
    /// font's flags and the vertical-layout flag.
    pub fn v_advance_flags(&self) -> (flags: u32)
        ensures
            flags == self.load_flags | LOAD_VERTICAL_LAYOUT,
    {
        self.load_flags | LOAD_VERTICAL_LAYOUT
    }
}

/// The line gap of a face: what its line height leaves over ascender and
/// descender.
pub open spec fn line_gap(m: SizeMetrics) -> int {
    m.height - (m.ascender - m.descender)
}

/// The font extents that `m` gives.
pub open spec fn font_extents(m: SizeMetrics) -> FontExtents {
    FontExtents {
        ascender: to_position(mirrored(m.y_scale, m.ascender as int)),
        descender: to_position(mirrored(m.y_scale, m.descender as int)),
        line_gap: to_position(mirrored(m.y_scale, line_gap(m))),
    }
}

/// Extents query. Ascender, descender and line gap come from the face's
/// sized metrics; on a vertically mirrored face all three are negated.
pub fn font_h_extents(m: &SizeMetrics) -> (extents: FontExtents)
    ensures
        extents == font_extents(*m),
{
    let gap: i128 = m.height as i128 - (m.ascender as i128 - m.descender as i128);
    FontExtents {
        ascender: mirrored_position(m.y_scale, m.ascender as i128),
        descender: mirrored_position(m.y_scale, m.descender as i128),
        line_gap: mirrored_position(m.y_scale, gap),
    }
}

/// What a nominal glyph lookup answers on a face whose character map sends
/// code point `c` to glyph `cmap(c)`, 0 standing for no glyph.
pub open spec fn nominal_glyph_of(cmap: spec_fn(u32) -> u32, symbol: bool, unicode: u32) -> Option<
    u32,
> {
    if cmap(unicode) != 0 {
        Some(cmap(unicode))
    } else if symbol && unicode <= SYMBOL_LIMIT && cmap((SYMBOL_AREA + unicode) as u32) != 0 {
        Some(cmap((SYMBOL_AREA + unicode) as u32))
    } else {
        None
    }
}

/// What the first step of the nominal glyph query decides when the
/// character map holds `char_index` for `unicode`, 0 standing for nothing. A
/// glyph is the answer. Without one, a code point up to `SYMBOL_LIMIT` on a
/// symbol font is looked up once more in the symbol area; any other has no
/// glyph.
pub open spec fn nominal_step(symbol: bool, unicode: u32, char_index: u32) -> NominalGlyph {
    if char_index != 0 {
        NominalGlyph::Found(char_index)
    } else if symbol && unicode <= SYMBOL_LIMIT {
        NominalGlyph::Probe((SYMBOL_AREA + unicode) as u32)
    } else {
        NominalGlyph::Missing
    }
}

/// What the second step decides when the character map holds `char_index`
/// for the code point that was probed.
pub open spec fn probed_glyph(char_index: u32) -> Option<u32> {
    if char_index != 0 {
        Some(char_index)
    } else {
        None
    }
}

/// First step of the nominal glyph query: `char_index` is what the
/// character map holds for `unicode`, 0 if nothing.
pub fn nominal_glyph(data: &FontFuncData, unicode: u32, char_index: u32) -> (step: NominalGlyph)
    ensures
        step == nominal_step(data.symbol, unicode, char_index),
        step matches NominalGlyph::Probe(code) ==> code == SYMBOL_AREA | unicode,
{
    if char_index != 0 {
        NominalGlyph::Found(char_index)
    } else if data.symbol && unicode <= SYMBOL_LIMIT {
        assert(0xF000u32 | unicode == 0xF000 + unicode) by (bit_vector)
            requires
                unicode <= 0xFF,
        ;
        NominalGlyph::Probe(SYMBOL_AREA | unicode)
    } else {
        NominalGlyph::Missing
    }
}

/// Second step of the nominal glyph query: `char_index` is what the
/// character map holds for the code point that was probed.
pub fn nominal_glyph_probed(char_index: u32) -> (glyph: Option<u32>)
    ensures
        glyph == probed_glyph(char_index),
{
    if char_index != 0 {
        Some(char_index)
    } else {
        None
    }
}

/// The answer that the two steps reach on a face whose character map sends
/// code point `c` to glyph `cmap(c)`: the first step is given what the map
/// holds for `unicode`, and the second, where the first asks for it, what
/// the map holds for the code point to probe.
pub open spec fn nominal_glyph_steps(
    cmap: spec_fn(u32) -> u32,
    symbol: bool,
    unicode: u32,
) -> Option<u32> {
    match nominal_step(symbol, unicode, cmap(unicode)) {
        NominalGlyph::Found(glyph) => Some(glyph),
        NominalGlyph::Probe(code) => probed_glyph(cmap(code)),
        NominalGlyph::Missing => None,
    }
}

/// The two steps of the nominal glyph query, run against any character map,
/// answer what `nominal_glyph_of` says. In particular a symbol font that
/// holds a code point up to `SYMBOL_LIMIT` only in the symbol area answers
/// with the glyph it holds there.
pub proof fn lemma_nominal_glyph(cmap: spec_fn(u32) -> u32, symbol: bool, unicode: u32)
    ensures
        nominal_glyph_steps(cmap, symbol, unicode) == nominal_glyph_of(cmap, symbol, unicode),
        symbol && unicode <= SYMBOL_LIMIT && cmap(unicode) == 0 && cmap(
            (SYMBOL_AREA + unicode) as u32,
        ) != 0 ==> nominal_glyph_steps(cmap, symbol, unicode) == Some(
            cmap((SYMBOL_AREA + unicode) as u32),
        ),
{
}

/// Variation glyph query: `char_index` is what the face holds for the pair
/// of code point and variation selector, 0 if nothing.
pub fn variation_glyph(char_index: u32) -> (glyph: Option<u32>)
    ensures
        char_index != 0 ==> glyph == Some(char_index),
        char_index == 0 ==> glyph.is_none(),
{
    if char_index != 0 {
        Some(char_index)
    } else {
        None
    }
}

/// The advance that the bridge answers for raw advance `raw` on an axis with
/// the given scale, when the engine reported `status`.
pub open spec fn advance_of(status: i32, raw: i64, scale: i64) -> i32 {
    if status == 0 {
        to_position(mirrored(scale, rounded(raw as int)))
    } else {
        0
    }
}

/// Horizontal advance query: the raw advance rounded to whole units, negated
/// on a horizontally mirrored face; 0 when the engine reported an error.
pub fn glyph_h_advance(status: i32, raw: i64, m: &SizeMetrics) -> (advance: i32)
    ensures
        advance == advance_of(status, raw, m.x_scale),
{
    if status != 0 {
        return 0;
    }
    mirrored_position(m.x_scale, round_units(raw) as i128)
}

/// Vertical advance query: as the horizontal one, on the vertical axis.
pub fn glyph_v_advance(status: i32, raw: i64, m: &SizeMetrics) -> (advance: i32)
    ensures
        advance == advance_of(status, raw, m.y_scale),
{
    if status != 0 {
        return 0;
    }
    mirrored_position(m.y_scale, round_units(raw) as i128)
}

/// The vertical origin that `g` and `m` give.
pub open spec fn v_origin_of(g: SlotMetrics, m: SizeMetrics) -> (i32, i32) {
    (
        to_position(mirrored(m.x_scale, g.hori_bearing_x - g.vert_bearing_x)),
        to_position(mirrored(m.y_scale, g.hori_bearing_y - (-g.vert_bearing_y))),
    )
}

/// Vertical origin query: the difference between the horizontal bearing and
/// the vertical bearing of the loaded glyph, the vertical bearing's `y`
/// counted downward, each axis negated where it is mirrored. Fails only when
/// the glyph did not load.
pub fn glyph_v_origin(status: i32, g: &SlotMetrics, m: &SizeMetrics) -> (origin: Option<(i32, i32)>)
    ensures
        status == 0 ==> origin == Some(v_origin_of(*g, *m)),
        status != 0 ==> origin.is_none(),
{
    if status != 0 {
        return None;
    }
    let x: i128 = g.hori_bearing_x as i128 - g.vert_bearing_x as i128;
    let y: i128 = g.hori_bearing_y as i128 - (-(g.vert_bearing_y as i128));
    Some((mirrored_position(m.x_scale, x), mirrored_position(m.y_scale, y)))
}

/// The kerning mode for a face: unfitted while the face has no horizontal
/// pixel size, the default otherwise.
pub fn kerning_mode(m: &SizeMetrics) -> (mode: KerningMode)
    ensures
        m.x_ppem == 0 ==> mode == KerningMode::Unfitted,
        m.x_ppem != 0 ==> mode == KerningMode::Default,
{
    if m.x_ppem == 0 {
        KerningMode::Unfitted
    } else {
        KerningMode::Default
    }
}

impl KerningMode {
    /// The engine's number for the mode.
    pub fn raw(self) -> (raw: u32)
        ensures
            self == KerningMode::Default ==> raw == 0,
            self == KerningMode::Unfitted ==> raw == 1,
    {
        match self {
            KerningMode::Default => 0,
            KerningMode::Unfitted => 1,
        }
    }
}

/// Horizontal kerning query: the horizontal part of the kerning distance
/// that the engine found; 0 when the lookup failed.
pub fn glyph_h_kerning(status: i32, kerning_x: i64) -> (kerning: i32)
    ensures
        status == 0 ==> kerning == to_position(kerning_x as int),
        status != 0 ==> kerning == 0,
{
    if status != 0 {
        return 0;
    }
    position(kerning_x as i128)
}

/// The glyph extents that `g` and `m` give.
pub open spec fn glyph_extents_of(g: SlotMetrics, m: SizeMetrics) -> GlyphExtents {
    GlyphExtents {
        x_bearing: to_position(mirrored(m.x_scale, g.hori_bearing_x as int)),
        y_bearing: to_position(mirrored(m.y_scale, g.hori_bearing_y as int)),
        width: to_position(mirrored(m.x_scale, g.width as int)),
        height: to_position(mirrored(m.y_scale, g.height as int)),
    }
}

/// Glyph extents query: horizontal bearing and size of the loaded glyph,
/// each axis negated where it is mirrored. Fails only when the glyph did not
/// load.
pub fn glyph_extents(status: i32, g: &SlotMetrics, m: &SizeMetrics) -> (extents: Option<
    GlyphExtents,
>)
    ensures
        status == 0 ==> extents == Some(glyph_extents_of(*g, *m)),
        status != 0 ==> extents.is_none(),
{
    if status != 0 {
        return None;
    }
    Some(
        GlyphExtents {
            x_bearing: mirrored_position(m.x_scale, g.hori_bearing_x as i128),
            y_bearing: mirrored_position(m.y_scale, g.hori_bearing_y as i128),
            width: mirrored_position(m.x_scale, g.width as i128),
            height: mirrored_position(m.y_scale, g.height as i128),
        },
    )
}

/// Whether a contour point query can be answered: the glyph loaded, it is a
/// scalable outline, and the outline has a point of that index.
pub open spec fn contour_point_exists(status: i32, format: u32, n_points: i64, point_index: u32) -> bool {
    status == 0 && format == GLYPH_FORMAT_OUTLINE && point_index < n_points
}

/// First step of the contour point query: the index of the outline point to
/// read, if the query can be answered.
pub fn contour_point_index(status: i32, format: u32, n_points: i64, point_index: u32) -> (index:
    Option<usize>)
    ensures
        contour_point_exists(status, format, n_points, point_index) ==> index == Some(
            point_index as usize,
        ),
        !contour_point_exists(status, format, n_points, point_index) ==> index.is_none(),
{
    if status != 0 {
        return None;
    }
    if format != GLYPH_FORMAT_OUTLINE {
        return None;
    }
    if point_index as i64 >= n_points {
        return None;
    }
    Some(point_index as usize)
}

/// Second step of the contour point query: the point that was read, in the
/// shaping engine's units.
pub fn contour_point(x: i64, y: i64) -> (point: (i32, i32))
    ensures
        point.0 == to_position(x as int),
        point.1 == to_position(y as int),
{
    (position(x as i128), position(y as i128))
}

/// Whether the engine reported no error: the one condition on which a query
/// that asks the engine counts as answered.
pub open spec fn no_error(status: i32) -> bool {
    status == 0
}

/// Whether the engine reported no error. The slot of a face holds the glyph
/// that was asked for only then.
pub fn succeeded(status: i32) -> (ok: bool)
    ensures
        ok == no_error(status),
{
    status == 0
}

/// Glyph name query: `status` is what the engine reported when it was asked
/// to write the name of the glyph into the caller's buffer. The name is
/// found exactly when the engine reported no error; the buffer is left as
/// the engine wrote it.
pub fn glyph_name(status: i32) -> (found: bool)
    ensures
        found == (status == 0),
{
    status == 0
}

proof fn lemma_negated_position(v: i128)
    by (bit_vector)
    requires
        -0x2_0000_0000_0000_0000 <= v <= 0x2_0000_0000_0000_0000,
        (v as i32) != -0x8000_0000i32,
    ensures
        ((-v) as i32) == -(v as i32),
{
}

/// Mirroring flips the extents as one. Of two faces that differ only in the
/// sign of their vertical scale, the mirrored one answers the negative of
/// the other's ascender, of its descender and of its line gap; none is left
/// as it was. The one value that has no negative in 32 bits is left out.
pub proof fn lemma_mirrored_extents(plain: SizeMetrics, mirror: SizeMetrics)
    requires
        plain.y_scale >= 0,
        mirror.y_scale < 0,
        mirror.ascender == plain.ascender,
        mirror.descender == plain.descender,
        mirror.height == plain.height,
        font_extents(plain).ascender != i32::MIN,
        font_extents(plain).descender != i32::MIN,
        font_extents(plain).line_gap != i32::MIN,
    ensures
        font_extents(mirror).ascender == -font_extents(plain).ascender,
        font_extents(mirror).descender == -font_extents(plain).descender,
        font_extents(mirror).line_gap == -font_extents(plain).line_gap,
{
    lemma_negated_position(plain.ascender as i128);
    lemma_negated_position(plain.descender as i128);
    lemma_negated_position(line_gap(plain) as i128);
}

} // verus!
