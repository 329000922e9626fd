//! The state of a face handle: the size it was last given, and what decides
//! when the rasterization engine has to be asked to resize it.

use crate::bridge::{FontFuncData, SlotMetrics};
use crate::error::{known_status, Error};
use crate::flags::{LoadFlags, RenderMode};
use crate::geometry::toward_zero;
use crate::glyph::UNITS_PER_PIXEL;
use crate::size::{FaceSize, FontSizeRequest, DPI};
use vstd::prelude::*;

verus! {

/// What a face handle knows of its face without asking the engine.
#[derive(Debug, Clone, Copy, PartialEq, Eq, Hash, Structural)]
pub struct HBFont {
    /// The size request that the engine last accepted.
    pub size_request: FontSizeRequest,
    /// What the font queries of the shaping engine share.
    pub func_data: FontFuncData,
}

/// What has to be done before a glyph is loaded.
#[derive(Debug, Clone, Copy, PartialEq, Eq, Hash, Structural)]
pub struct LoadPlan {
    /// The size to request from the engine first, if the face is not at it.
    pub resize: Option<FontSizeRequest>,
    /// The flags with which to load the glyph.
    pub flags: LoadFlags,
}

/// Metrics of a glyph in 26.6 units.
#[derive(Debug, Clone, Copy, PartialEq, Eq, Hash, Structural)]
pub struct GlyphMetrics266 {
    pub width: i32,
    pub height: i32,
    pub hori_bearing_x: i32,
    pub hori_bearing_y: i32,
    pub hori_advance: i32,
    pub vert_bearing_x: i32,
    pub vert_bearing_y: i32,
    pub vert_advance: i32,
}

/// Metrics of a glyph in whole pixels.
#[derive(Debug, Clone, Copy, PartialEq, Eq, Hash, Structural)]
pub struct GlyphMetricsPx {
    pub width: i32,
    pub height: i32,
    pub hori_bearing_x: i32,
    pub hori_bearing_y: i32,
    pub hori_advance: i32,
    pub vert_bearing_x: i32,
    pub vert_bearing_y: i32,
    pub vert_advance: i32,
}

/// A source of raw font tables, by tag.
pub trait LoadFontTable {
    fn load_table(&self, table_tag: u32) -> Option<Vec<u8>>;
}

/// A font table as it is handed to the shaping engine: the bytes, if the
/// font has the table, and their number.
#[derive(Debug)]
pub struct TableBlob {
    pub table: Option<Vec<u8>>,
    pub length: u32,
}

/// Number of bytes in a table that may be missing.
pub open spec fn table_len(table: Option<Vec<u8>>) -> int {
    match table {
        Some(bytes) => bytes@.len() as int,
        None => 0,
    }
}

/// The blob that a table gives. The shaping engine counts bytes in 32 bits:
/// a longer table has no blob.
pub open spec fn blob_of(table: Option<Vec<u8>>) -> Option<TableBlob> {
    if table_len(table) <= u32::MAX {
        Some(TableBlob { table, length: table_len(table) as u32 })
    } else {
        None
    }
}

/// The blob for a table.
pub fn table_blob(table: Option<Vec<u8>>) -> (blob: Option<TableBlob>)
    ensures
        blob == blob_of(table),
{
    let length: usize = match &table {
        Some(bytes) => bytes.len(),
        None => 0,
    };
    if length > u32::MAX as usize {
        return None;
    }
    Some(TableBlob { table, length: length as u32 })
}

/// Loads the table with the given tag for the shaping engine: the loader is
/// asked once, for that tag, and the result is the blob of the table that it
/// hands back.
pub fn reference_table<L: LoadFontTable>(loader: &L, tag: u32) -> (blob: Option<TableBlob>)
    ensures
        exists|table: Option<Vec<u8>>|
            #[trigger] call_ensures(L::load_table, (loader, tag), table) && blob == blob_of(table),
        blob matches Some(b) ==> b.length == table_len(b.table),
{
    table_blob(loader.load_table(tag))
}

impl HBFont {
    /// The state of a face that has just been created: no size has been
    /// requested, so the first request for any size reaches the engine.
    pub fn new(charmap_encoding: Option<u32>) -> (font: HBFont)
        ensures
            font.size_request == FontSizeRequest::spec_unset(),
            font.func_data.symbol == (charmap_encoding == Some(
                crate::bridge::ENCODING_MS_SYMBOL,
            )),
            font.func_data.load_flags == crate::flags::LOAD_NO_HINTING,
            forall|size: FaceSize, dpi: DPI| font.needs_resize(size, dpi),
    {
        HBFont {
            size_request: FontSizeRequest::unset(),
            func_data: FontFuncData::new(charmap_encoding),
        }
    }

    /// Whether the engine has to be asked before the face is at `size` and
    /// `dpi`: only when the request differs from the one it last accepted.
    pub open spec fn needs_resize(self, size: FaceSize, dpi: DPI) -> bool {
        self.size_request != FontSizeRequest::spec_of(size, dpi)
    }

    /// The state after the engine answered `status` to `request`: the
    /// request is remembered only when it was accepted.
    pub open spec fn after_resize(self, request: FontSizeRequest, status: i32) -> HBFont {
        if status == 0 {
            HBFont { size_request: request, func_data: self.func_data }
        } else {
            self
        }
    }

    /// First step of a resize: the request to hand to the engine, or `None`
    /// when the face is at that size already and nothing is to be done.
    pub fn resize_request(&self, size: FaceSize, dpi: DPI) -> (request: Option<FontSizeRequest>)
        ensures
            self.needs_resize(size, dpi) ==> request == Some(FontSizeRequest::spec_of(size, dpi)),
            !self.needs_resize(size, dpi) ==> request.is_none(),
    {
        let request = FontSizeRequest::of(size, dpi);
        if self.size_request != request {
            Some(request)
        } else {
            None
        }
    }

    /// Second step of a resize: `status` is the engine's answer to
    /// `request`. An accepted request becomes the remembered one; a refused
    /// one leaves the face as it was and is reported as the error that the
    /// status names.
    pub fn resized(&mut self, request: FontSizeRequest, status: i32) -> (outcome: Result<(), Error>)
        requires
            known_status(status as int),
        ensures
            *final(self) == old(self).after_resize(request, status),
            status == 0 <==> outcome.is_ok(),
            outcome matches Err(e) ==> e.spec_code() == status,
    {
        let outcome = Error::check(status);
        if status == 0 {
            self.size_request = request;
        }
        outcome
    }

    /// What to do to load a glyph at `size` and `dpi` for `mode`: resize if
    /// the face is not at that size, then load with `flags` and the bits of
    /// the mode's hinting algorithm.
    pub fn load_glyph(&self, size: FaceSize, dpi: DPI, flags: LoadFlags, mode: RenderMode) -> (plan:
        LoadPlan)
        ensures
            self.needs_resize(size, dpi) ==> plan.resize == Some(
                FontSizeRequest::spec_of(size, dpi),
            ),
            !self.needs_resize(size, dpi) ==> plan.resize.is_none(),
            plan.flags.bits == flags.bits | mode.spec_load_target(),
    {
        LoadPlan { resize: self.resize_request(size, dpi), flags: flags.for_render(mode) }
    }

    /// What to do before the advance of a glyph is asked for: resize as for
    /// loading, unless the flags ask for the advance in font units, which no
    /// size changes.
    pub fn glyph_advance(&self, size: FaceSize, dpi: DPI, flags: LoadFlags) -> (request: Option<
        FontSizeRequest,
    >)
        ensures
            !flags.unscaled() && self.needs_resize(size, dpi) ==> request == Some(
                FontSizeRequest::spec_of(size, dpi),
            ),
            flags.unscaled() || !self.needs_resize(size, dpi) ==> request.is_none(),
    {
        if flags.is_unscaled() {
            None
        } else {
            self.resize_request(size, dpi)
        }
    }
}

/// The advance that the engine wrote, if it reported no error; else the
/// error that its status names.
pub fn advance_result(status: i32, advance: i64) -> (outcome: Result<i64, Error>)
    requires
        known_status(status as int),
    ensures
        status == 0 ==> outcome == Ok::<i64, Error>(advance),
        status != 0 ==> (outcome matches Err(e) && e.spec_code() == status),
{
    match Error::check(status) {
        Ok(()) => Ok(advance),
        Err(e) => Err(e),
    }
}

impl GlyphMetrics266 {
    /// The metrics of the glyph in a slot, each reduced to 32 bits.
    pub fn from_slot(g: &SlotMetrics) -> (metrics: GlyphMetrics266)
        ensures
            metrics.width == g.width as i32,
            metrics.height == g.height as i32,
            metrics.hori_bearing_x == g.hori_bearing_x as i32,
            metrics.hori_bearing_y == g.hori_bearing_y as i32,
            metrics.hori_advance == g.hori_advance as i32,
            metrics.vert_bearing_x == g.vert_bearing_x as i32,
            metrics.vert_bearing_y == g.vert_bearing_y as i32,
            metrics.vert_advance == g.vert_advance as i32,
    {
        GlyphMetrics266 {
            width: low_bits(g.width),
            height: low_bits(g.height),
            hori_bearing_x: low_bits(g.hori_bearing_x),
            hori_bearing_y: low_bits(g.hori_bearing_y),
            hori_advance: low_bits(g.hori_advance),
            vert_bearing_x: low_bits(g.vert_bearing_x),
            vert_bearing_y: low_bits(g.vert_bearing_y),
            vert_advance: low_bits(g.vert_advance),
        }
    }

    /// The metrics in whole pixels: each is divided by 64 and rounded toward
    /// zero.
    pub open spec fn spec_to_px(self) -> GlyphMetricsPx {
        GlyphMetricsPx {
            width: toward_zero(self.width as int, 64) as i32,
            height: toward_zero(self.height as int, 64) as i32,
            hori_bearing_x: toward_zero(self.hori_bearing_x as int, 64) as i32,
            hori_bearing_y: toward_zero(self.hori_bearing_y as int, 64) as i32,
            hori_advance: toward_zero(self.hori_advance as int, 64) as i32,
            vert_bearing_x: toward_zero(self.vert_bearing_x as int, 64) as i32,
            vert_bearing_y: toward_zero(self.vert_bearing_y as int, 64) as i32,
            vert_advance: toward_zero(self.vert_advance as int, 64) as i32,
        }
    }

    /// The metrics in whole pixels.
    pub fn to_px(self) -> (px: GlyphMetricsPx)
        ensures
            px == self.spec_to_px(),
    {
        GlyphMetricsPx {
            width: self.width / UNITS_PER_PIXEL,
            height: self.height / UNITS_PER_PIXEL,
            hori_bearing_x: self.hori_bearing_x / UNITS_PER_PIXEL,
            hori_bearing_y: self.hori_bearing_y / UNITS_PER_PIXEL,
            hori_advance: self.hori_advance / UNITS_PER_PIXEL,
            vert_bearing_x: self.vert_bearing_x / UNITS_PER_PIXEL,
            vert_bearing_y: self.vert_bearing_y / UNITS_PER_PIXEL,
            vert_advance: self.vert_advance / UNITS_PER_PIXEL,
        }
    }
}

/// The low 32 bits of `v`.
fn low_bits(v: i64) -> (low: i32)
    ensures
        low == v as i32,
{
    #[verifier::truncate]
    (v as i32)
}

/// Resizing is idempotent. Once the engine has accepted a request for a
/// size, the face no longer needs a resize for that size, so a second
/// resize to it reaches the engine not at all; and a refused request leaves
/// the face needing what it needed before.
pub proof fn lemma_resize_idempotent(font: HBFont, size: FaceSize, dpi: DPI, status: i32)
    ensures
        !font.after_resize(FontSizeRequest::spec_of(size, dpi), 0).needs_resize(size, dpi),
        status != 0 ==> font.after_resize(FontSizeRequest::spec_of(size, dpi), status) == font,
        !font.needs_resize(size, dpi) ==> font.after_resize(
            FontSizeRequest::spec_of(size, dpi),
            0,
        ) == font,
{
}

} // verus!
