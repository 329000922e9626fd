//! The shaping orchestrator: cuts text into segments at line-break
//! opportunities and records the shaped segments in a buffer.

use crate::buffer::{
    appended, lemma_partitions_valid, partitions, runs_fit, segment_start, valid_breaks,
    BufferView, GlyphRun, LineBreak, ShapedBuffer,
};
use crate::buffer_laws::{
    breaks_reach_end, lemma_append_associative, lemma_appended_lengths, lemma_call_covers_text,
    lemma_joint_runs_fit, shifted,
};
use crate::error::{known_status, Error};
use crate::face::HBFont;
use crate::size::{FaceSize, FontSizeRequest, DPI};
use crate::geometry::in_i32;
use crate::glyph::{glyph_fits, pen_x, pen_y, run_fits, UNITS_PER_PIXEL};
use crate::text::{
    byte_len, bytes_of, lemma_boundary_in_range, lemma_encode_concat, on_boundary, str_between,
    str_byte_len,
};
use vstd::prelude::*;
use vstd::utf8::{encode_utf8_valid_utf8, is_char_boundary_start_end_of_seq};
use xi_unicode::LineBreakIterator;

verus! {

/// The line-break opportunities of a text as the UAX #14 classifier of
/// `xi_unicode` finds them: byte offset and whether the break is mandatory, in
/// the order in which the classifier yields them.
pub uninterp spec fn break_opportunities(text: Seq<char>) -> Seq<(int, bool)>;

/// Offset and kind of each break, for comparison with `break_opportunities`.
pub open spec fn break_pairs(breaks: Seq<LineBreak>) -> Seq<(int, bool)> {
    breaks.map_values(|b: LineBreak| (b.index as int, b.hard))
}

/// The classifier's breaks as `LineBreak` values.
pub open spec fn classified_breaks(text: Seq<char>) -> Seq<LineBreak> {
    break_opportunities(text).map_values(|p: (int, bool)| LineBreak { index: p.0 as usize, hard: p.1 })
}

/// Runs `xi_unicode::LineBreakIterator` over `text` to its end and collects
/// what it yields. The breaks are the classifier's answer for this text. The
/// iterator starts behind the first character and moves on one character at
/// a time, so each offset it yields lies on a character boundary behind the
/// one before; when it reaches the end of a text that is not empty it yields
/// the end as a mandatory break, and is done; for the empty text it yields
/// nothing.
#[verifier::external_body]
fn classify(text: &str) -> (breaks: Vec<LineBreak>)
    ensures
        break_pairs(breaks@) == break_opportunities(text@),
        partitions(text@, breaks@),
{
    LineBreakIterator::new(text).map(|(index, hard)| LineBreak { index, hard }).collect()
}

/// The line-break opportunities of `text`, mandatory or not. They cut the
/// whole text into segments.
pub fn line_breaks(text: &str) -> (breaks: Vec<LineBreak>)
    ensures
        breaks@ == classified_breaks(text@),
        partitions(text@, breaks@),
        valid_breaks(text@, breaks@),
{
    let breaks = classify(text);
    proof {
        let pairs = break_opportunities(text@);
        assert(breaks@.len() == pairs.len());
        assert forall|k: int| 0 <= k < breaks@.len() implies breaks@[k] == classified_breaks(
            text@,
        )[k] by {
            assert(break_pairs(breaks@)[k] == pairs[k]);
        }
        assert(breaks@ =~= classified_breaks(text@));
        lemma_partitions_valid(text@, breaks@);
    }
    breaks
}

/// The text of segment `k`: what lies between the break before it, or the
/// start of the text, and its own break.
pub fn segment_part<'a>(text: &'a str, breaks: &[LineBreak], k: usize) -> (part: &'a str)
    requires
        valid_breaks(text@, breaks@),
        k < breaks@.len(),
    ensures
        bytes_of(part@) == bytes_of(text@).subrange(
            segment_start(breaks@, k as int),
            breaks@[k as int].index as int,
        ),
{
    let start = if k == 0 {
        0
    } else {
        breaks[k - 1].index
    };
    let end = breaks[k].index;
    proof {
        encode_utf8_valid_utf8(text@);
        is_char_boundary_start_end_of_seq(bytes_of(text@));
        assert(on_boundary(text@, breaks@[k as int].index as int));
        if k > 0 {
            assert(on_boundary(text@, breaks@[k - 1].index as int));
        }
    }
    str_between(text, start, end)
}

/// Whether `breaks` cut `text` into segments.
pub fn check_breaks(text: &str, breaks: &[LineBreak]) -> (ok: bool)
    ensures
        ok == valid_breaks(text@, breaks@),
{
    let mut last_break: usize = 0;
    let mut k: usize = 0;
    while k < breaks.len()
        invariant
            0 <= k <= breaks@.len(),
            last_break == segment_start(breaks@, k as int),
            forall|j: int|
                0 <= j < k ==> {
                    &&& on_boundary(text@, (#[trigger] breaks@[j]).index as int)
                    &&& segment_start(breaks@, j) <= breaks@[j].index
                },
        decreases breaks@.len() - k,
    {
        let brk = breaks[k];
        if brk.index < last_break || !text.is_char_boundary(brk.index) {
            proof {
                assert(!(on_boundary(text@, breaks@[k as int].index as int) && segment_start(
                    breaks@,
                    k as int,
                ) <= breaks@[k as int].index));
            }
            return false;
        }
        last_break = brk.index;
        k = k + 1;
    }
    true
}

impl GlyphRun {
    /// Whether the run can be recorded for a segment that starts at byte
    /// `base`.
    pub fn fits(&self, base: usize) -> (ok: bool)
        ensures
            ok == run_fits(self.positions@, self.infos@, base as int),
    {
        if self.positions.len() != self.infos.len() {
            return false;
        }
        let mut x: i64 = 0;
        let mut y: i64 = 0;
        let mut i: usize = 0;
        while i < self.positions.len()
            invariant
                self.positions@.len() == self.infos@.len(),
                0 <= i <= self.positions@.len(),
                x == pen_x(self.positions@, i as int),
                y == pen_y(self.positions@, i as int),
                in_i32(x as int),
                in_i32(y as int),
                forall|j: int|
                    0 <= j < i ==> glyph_fits(self.positions@, self.infos@, base as int, j),
            decreases self.positions@.len() - i,
        {
            let position = self.positions[i];
            let info = self.infos[i];
            let next_x: i64 = x + (position.x_advance / UNITS_PER_PIXEL) as i64;
            let next_y: i64 = y + (position.y_advance / UNITS_PER_PIXEL) as i64;
            let placed_x: i64 = x + position.x_offset as i64;
            let placed_y: i64 = y + position.y_offset as i64;
            proof {
                assert(next_x == pen_x(self.positions@, i + 1));
                assert(next_y == pen_y(self.positions@, i + 1));
            }
            if !(within_i32(next_x) && within_i32(next_y) && within_i32(placed_x) && within_i32(
                placed_y,
            )) || info.cluster as usize > usize::MAX - base {
                proof {
                    assert(!glyph_fits(self.positions@, self.infos@, base as int, i as int));
                }
                return false;
            }
            x = next_x;
            y = next_y;
            i = i + 1;
        }
        true
    }
}

/// Whether `v` can be held in an `i32`.
fn within_i32(v: i64) -> (ok: bool)
    ensures
        ok == in_i32(v as int),
{
    -0x8000_0000 <= v && v <= 0x7fff_ffff
}

/// Whether each run can be recorded for its segment when the text begins at
/// byte `offset` of the buffer.
fn check_runs(offset: usize, breaks: &[LineBreak], runs: &[GlyphRun], Ghost(text): Ghost<Seq<char>>) -> (ok: bool)
    requires
        valid_breaks(text, breaks@),
        offset + byte_len(text) <= usize::MAX,
    ensures
        ok == runs_fit(offset as int, breaks@, runs@),
{
    if runs.len() != breaks.len() {
        return false;
    }
    let mut last_break: usize = 0;
    let mut k: usize = 0;
    while k < runs.len()
        invariant
            runs@.len() == breaks@.len(),
            0 <= k <= runs@.len(),
            valid_breaks(text, breaks@),
            offset + byte_len(text) <= usize::MAX,
            last_break == segment_start(breaks@, k as int),
            last_break <= byte_len(text),
            forall|j: int|
                0 <= j < k ==> run_fits(
                    (#[trigger] runs@[j]).positions@,
                    runs@[j].infos@,
                    offset + segment_start(breaks@, j),
                ),
        decreases runs@.len() - k,
    {
        if !runs[k].fits(offset + last_break) {
            proof {
                assert(!run_fits(
                    runs@[k as int].positions@,
                    runs@[k as int].infos@,
                    offset + segment_start(breaks@, k as int),
                ));
            }
            return false;
        }
        proof {
            assert(on_boundary(text, breaks@[k as int].index as int));
            encode_utf8_valid_utf8(text);
            lemma_boundary_in_range(bytes_of(text), breaks@[k as int].index as int);
        }
        last_break = breaks[k].index;
        k = k + 1;
    }
    true
}

/// Whether one call can record `text` with `runs` after what `v` holds: the
/// text still fits the address space, and there is one recordable run for
/// each segment that the classifier's breaks cut.
pub open spec fn shapeable(v: BufferView, text: Seq<char>, runs: Seq<GlyphRun>) -> bool {
    &&& byte_len(v.text) + byte_len(text) <= usize::MAX
    &&& runs_fit(byte_len(v.text), classified_breaks(text), runs)
}

/// What one call leaves in a buffer that held `v`: with the text and its
/// segments recorded where that can be done, as it was where not.
pub open spec fn shaped(v: BufferView, text: Seq<char>, runs: Seq<GlyphRun>) -> BufferView {
    if shapeable(v, text, runs) {
        appended(v, text, classified_breaks(text), runs)
    } else {
        v
    }
}

/// Whether a call ends at its resize: the face was not at the size asked for,
/// and the engine refused the request.
pub open spec fn resize_fails(face: HBFont, size: FaceSize, dpi: DPI, status: i32) -> bool {
    face.needs_resize(size, dpi) && status != 0
}

/// What a recorded call adds covers its text from end to end. The call
/// adds a segment exactly when the text is not empty; the first segment it
/// adds starts where the text begins in the buffer, each later one starts
/// where the one before ends, and the last one ends at the end of the
/// buffer's text, in a mandatory break.
pub open spec fn covers_text(before: BufferView, after: BufferView, text: Seq<char>) -> bool {
    let first = before.segments.len() as int;
    &&& after.segments.len() >= first
    &&& (text.len() == 0 <==> after.segments.len() == first)
    &&& forall|k: int|
        first <= k < after.segments.len() ==> (#[trigger] after.segments[k]).text_start == (if k
            == first {
            byte_len(before.text)
        } else {
            after.segments[k - 1].text_end as int
        })
    &&& text.len() > 0 ==> {
        &&& after.segments.last().text_end == byte_len(after.text)
        &&& after.segments.last().hard_break
    }
}

/// The shaping orchestrator.
#[derive(Debug)]
pub struct Shaper {}

impl Shaper {
    pub fn new() -> (shaper: Shaper) {
        Shaper {  }
    }

    /// The breaks at which `text` is cut into segments: every line-break
    /// opportunity, mandatory or not.
    pub fn segment_text(&self, text: &str) -> (breaks: Vec<LineBreak>)
        ensures
            breaks@ == classified_breaks(text@),
            partitions(text@, breaks@),
            valid_breaks(text@, breaks@),
    {
        line_breaks(text)
    }

    /// Records what one call shaped, if the call can be recorded whole:
    /// `text`, cut at its line-break opportunities, with `runs[k]` as the
    /// shaping engine's output for segment `k`. The segments recorded cover
    /// the text from end to end, and the last one ends in a mandatory break.
    pub fn record(&self, text: &str, runs: &[GlyphRun], buffer: &mut ShapedBuffer) -> (ok: bool)
        requires
            old(buffer).wf(),
        ensures
            final(buffer).wf(),
            ok == shapeable(old(buffer)@, text@, runs@),
            final(buffer)@ == shaped(old(buffer)@, text@, runs@),
            partitions(text@, classified_breaks(text@)),
            ok ==> covers_text(old(buffer)@, final(buffer)@, text@),
    {
        let breaks = line_breaks(text);
        let offset = str_byte_len(buffer.text());
        let len = str_byte_len(text);
        if len > usize::MAX - offset {
            return false;
        }
        if !check_runs(offset, breaks.as_slice(), runs, Ghost(text@)) {
            return false;
        }
        proof {
            lemma_call_covers_text(buffer@, text@, breaks@, runs@);
        }
        buffer.append(text, breaks.as_slice(), runs);
        true
    }

    /// One shaping call, after the engines have done their part. The face is
    /// first brought to `face_size` at `dpi`: `resize_status` is the
    /// rasterization engine's answer to the request that
    /// `face.resize_request` made, and is not looked at where the face needed
    /// none. A refused resize ends the call with the error that the status
    /// names; face and buffer stay as they were. Otherwise the face remembers
    /// the size, and `text` is recorded in `buffer`, cut at its line-break
    /// opportunities, with `runs[k]` as the shaping engine's output for
    /// segment `k`. The result says whether there was one recordable run for
    /// each segment; if not, the buffer stays as it was.
    pub fn shape_text(
        &self,
        text: &str,
        face: &mut HBFont,
        face_size: FaceSize,
        dpi: DPI,
        resize_status: i32,
        runs: &[GlyphRun],
        buffer: &mut ShapedBuffer,
    ) -> (outcome: Result<bool, Error>)
        requires
            old(buffer).wf(),
            old(face).needs_resize(face_size, dpi) ==> known_status(resize_status as int),
        ensures
            final(buffer).wf(),
            resize_fails(*old(face), face_size, dpi, resize_status) ==> {
                &&& outcome matches Err(e)
                &&& e.spec_code() == resize_status
                &&& *final(face) == *old(face)
                &&& final(buffer)@ == old(buffer)@
            },
            !resize_fails(*old(face), face_size, dpi, resize_status) ==> {
                &&& outcome == Ok::<bool, Error>(shapeable(old(buffer)@, text@, runs@))
                &&& *final(face) == old(face).after_resize(FontSizeRequest::spec_of(face_size, dpi), 0)
                &&& !final(face).needs_resize(face_size, dpi)
                &&& final(buffer)@ == shaped(old(buffer)@, text@, runs@)
                &&& partitions(text@, classified_breaks(text@))
                &&& shapeable(old(buffer)@, text@, runs@) ==> covers_text(
                    old(buffer)@,
                    final(buffer)@,
                    text@,
                )
            },
    {
        match face.resize_request(face_size, dpi) {
            Some(request) => {
                match face.resized(request, resize_status) {
                    Ok(()) => {},
                    Err(e) => {
                        return Err(e);
                    },
                }
            },
            None => {},
        }
        Ok(self.record(text, runs, buffer))
    }
}

/// Two calls leave what one call on the joined text leaves, wherever the
/// classifier cuts the joined text as it cuts the two texts: at the breaks of
/// the first, which end with the seam, and then at the breaks of the second,
/// moved behind the first. Then the joined call can be recorded if the two
/// calls can, with the runs of both in order, and glyphs and descriptors are
/// the same either way.
pub proof fn lemma_shape_text_associative(
    v: BufferView,
    first: Seq<char>,
    runs_a: Seq<GlyphRun>,
    second: Seq<char>,
    runs_b: Seq<GlyphRun>,
)
    requires
        partitions(first, classified_breaks(first)),
        partitions(second, classified_breaks(second)),
        classified_breaks(first + second) == classified_breaks(first) + shifted(
            classified_breaks(second),
            byte_len(first),
        ),
        shapeable(v, first, runs_a),
        shapeable(shaped(v, first, runs_a), second, runs_b),
    ensures
        shapeable(v, first + second, runs_a + runs_b),
        shaped(shaped(v, first, runs_a), second, runs_b) == shaped(
            v,
            first + second,
            runs_a + runs_b,
        ),
{
    let breaks_a = classified_breaks(first);
    let breaks_b = classified_breaks(second);
    let offset = byte_len(v.text);
    let after_first = appended(v, first, breaks_a, runs_a);
    lemma_appended_lengths(
        BufferView { text: v.text + first, glyphs: v.glyphs, segments: v.segments },
        offset,
        breaks_a,
        runs_a,
        breaks_a.len() as int,
    );
    assert(after_first.text == v.text + first);
    lemma_encode_concat(v.text, first);
    lemma_encode_concat(first, second);
    lemma_partitions_valid(second, breaks_b);
    assert(breaks_reach_end(first, breaks_a));
    lemma_joint_runs_fit(offset, first, breaks_a, runs_a, second, breaks_b, runs_b);
    lemma_append_associative(v, first, breaks_a, runs_a, second, breaks_b, runs_b);
}

} // verus!
