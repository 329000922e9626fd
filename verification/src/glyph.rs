//! Glyph records and the pen walk that turns a shaping engine's output for one
//! segment into positioned glyphs.

use crate::geometry::{in_i32, shrink, toward_zero, moved_by, Point, Vector};
use vstd::prelude::*;

verus! {

/// Advance and offset of one glyph as the shaping engine reports them, in 26.6
/// fixed-point units.
#[derive(Debug, Clone, Copy, PartialEq, Eq, Hash, Structural)]
pub struct GlyphPosition {
    pub x_advance: i32,
    pub y_advance: i32,
    pub x_offset: i32,
    pub y_offset: i32,
}

/// Identity of one glyph as the shaping engine reports it: the glyph index and
/// the byte offset, within the shaped segment, of the text it came from.
#[derive(Debug, Clone, Copy, PartialEq, Eq, Hash, Structural)]
pub struct GlyphInfo {
    pub codepoint: u32,
    pub cluster: u32,
}

/// A positioned glyph.
#[derive(Debug, Clone, Copy, PartialEq, Eq, Hash, Structural)]
pub struct ShapedGlyph {
    /// Index of the glyph in its face; not a code point.
    pub glyph_index: u32,
    /// Pen movement caused by the glyph, in pixel units.
    pub advance: Vector,
    /// Pen position at the glyph plus the glyph's offset.
    pub pos: Point,
    /// Byte index of the glyph's source text.
    pub str_index: usize,
    /// Byte index of the glyph's source text within its segment.
    pub word_str_index: usize,
}

/// Number of 26.6 units in one pixel.
pub const UNITS_PER_PIXEL: i32 = 64;

/// A 26.6 value in whole pixels, rounded toward zero.
pub open spec fn pixels(v: int) -> int {
    toward_zero(v, UNITS_PER_PIXEL as int)
}

/// Horizontal pen position before glyph `n`: the pixel advances of the glyphs
/// before it, summed.
pub open spec fn pen_x(positions: Seq<GlyphPosition>, n: int) -> int
    decreases n,
{
    if n <= 0 {
        0
    } else {
        pen_x(positions, n - 1) + pixels(positions[n - 1].x_advance as int)
    }
}

/// Vertical pen position before glyph `n`.
pub open spec fn pen_y(positions: Seq<GlyphPosition>, n: int) -> int
    decreases n,
{
    if n <= 0 {
        0
    } else {
        pen_y(positions, n - 1) + pixels(positions[n - 1].y_advance as int)
    }
}

/// Whether glyph `i` can be recorded: its position, the pen after it and its
/// byte index are representable.
pub open spec fn glyph_fits(
    positions: Seq<GlyphPosition>,
    infos: Seq<GlyphInfo>,
    base: int,
    i: int,
) -> bool {
    &&& in_i32(pen_x(positions, i) + positions[i].x_offset)
    &&& in_i32(pen_y(positions, i) + positions[i].y_offset)
    &&& in_i32(pen_x(positions, i + 1))
    &&& in_i32(pen_y(positions, i + 1))
    &&& base + infos[i].cluster <= usize::MAX
}

/// Whether a whole run can be recorded with its segment starting at byte
/// `base`: one info per position, and every glyph fits.
pub open spec fn run_fits(positions: Seq<GlyphPosition>, infos: Seq<GlyphInfo>, base: int) -> bool {
    &&& positions.len() == infos.len()
    &&& 0 <= base
    &&& forall|i: int| 0 <= i < positions.len() ==> glyph_fits(positions, infos, base, i)
}

/// The record of glyph `i` of a run whose segment starts at byte `base`.
pub open spec fn shaped_glyph(
    positions: Seq<GlyphPosition>,
    infos: Seq<GlyphInfo>,
    base: int,
    i: int,
) -> ShapedGlyph {
    ShapedGlyph {
        glyph_index: infos[i].codepoint,
        advance: Vector {
            x: pixels(positions[i].x_advance as int) as i32,
            y: pixels(positions[i].y_advance as int) as i32,
        },
        pos: Point {
            x: (pen_x(positions, i) + positions[i].x_offset) as i32,
            y: (pen_y(positions, i) + positions[i].y_offset) as i32,
        },
        str_index: (base + infos[i].cluster) as usize,
        word_str_index: infos[i].cluster as usize,
    }
}

/// The records of a whole run, in order.
pub open spec fn shaped_run(
    positions: Seq<GlyphPosition>,
    infos: Seq<GlyphInfo>,
    base: int,
) -> Seq<ShapedGlyph> {
    Seq::new(positions.len(), |i: int| shaped_glyph(positions, infos, base, i))
}

/// Walks the position/info pairs of one shaped segment and yields the glyph
/// records, keeping the pen as it goes.
pub struct ShapedGlyphIter<'a> {
    positions: &'a [GlyphPosition],
    infos: &'a [GlyphInfo],
    base: usize,
    index: usize,
    cursor: Point,
}

impl<'a> ShapedGlyphIter<'a> {
    /// The positions the walk runs over.
    pub closed spec fn positions(&self) -> Seq<GlyphPosition> {
        self.positions@
    }

    /// The infos the walk runs over.
    pub closed spec fn infos(&self) -> Seq<GlyphInfo> {
        self.infos@
    }

    /// Byte index at which the segment starts.
    pub closed spec fn base(&self) -> int {
        self.base as int
    }

    /// Number of glyphs already yielded.
    pub closed spec fn yielded(&self) -> int {
        self.index as int
    }

    /// The pen where the next glyph will be placed.
    pub closed spec fn pen(&self) -> Point {
        self.cursor
    }

    /// The walk is within its run and the pen is where the yielded glyphs left it.
    pub open spec fn wf(&self) -> bool {
        &&& run_fits(self.positions(), self.infos(), self.base())
        &&& 0 <= self.yielded() <= self.positions().len()
        &&& self.pen().x == pen_x(self.positions(), self.yielded())
        &&& self.pen().y == pen_y(self.positions(), self.yielded())
    }

    /// Starts a walk at the first glyph with the pen at the origin.
    pub fn new(positions: &'a [GlyphPosition], infos: &'a [GlyphInfo], base: usize) -> (iter: Self)
        requires
            run_fits(positions@, infos@, base as int),
        ensures
            iter.wf(),
            iter.positions() == positions@,
            iter.infos() == infos@,
            iter.base() == base,
            iter.yielded() == 0,
    {
        ShapedGlyphIter { positions, infos, base, index: 0, cursor: Point { x: 0, y: 0 } }
    }

    /// Yields the next glyph record and moves the pen by its advance; `None`
    /// once every glyph has been yielded.
    pub fn next(&mut self) -> (glyph: Option<ShapedGlyph>)
        requires
            old(self).wf(),
        ensures
            final(self).wf(),
            final(self).positions() == old(self).positions(),
            final(self).infos() == old(self).infos(),
            final(self).base() == old(self).base(),
            match glyph {
                Some(g) => {
                    &&& old(self).yielded() < old(self).positions().len()
                    &&& final(self).yielded() == old(self).yielded() + 1
                    &&& g == shaped_glyph(
                        old(self).positions(),
                        old(self).infos(),
                        old(self).base(),
                        old(self).yielded(),
                    )
                },
                None => {
                    &&& old(self).yielded() == old(self).positions().len()
                    &&& *final(self) == *old(self)
                },
            },
    {
        if self.index >= self.positions.len() {
            return None;
        }
        let position = self.positions[self.index];
        let info = self.infos[self.index];
        proof {
            assert(glyph_fits(self.positions@, self.infos@, self.base as int, self.index as int));
        }
        let advance = shrink(
            Vector { x: position.x_advance, y: position.y_advance },
            UNITS_PER_PIXEL,
        );
        let glyph = ShapedGlyph {
            glyph_index: info.codepoint,
            advance,
            pos: moved_by(self.cursor, Vector { x: position.x_offset, y: position.y_offset }),
            str_index: self.base + info.cluster as usize,
            word_str_index: info.cluster as usize,
        };
        self.cursor = moved_by(self.cursor, advance);
        self.index = self.index + 1;
        Some(glyph)
    }

    /// Number of glyphs still to come.
    pub fn len(&self) -> (remaining: usize)
        requires
            self.wf(),
        ensures
            remaining == self.positions().len() - self.yielded(),
    {
        self.positions.len() - self.index
    }

    /// The pen where the next glyph will be placed.
    pub fn cursor(&self) -> (pen: Point)
        ensures
            pen == self.pen(),
    {
        self.cursor
    }
}

} // verus!
