//! The shaped buffer: text, glyph records and segment descriptors gathered
//! over any number of shaping calls.

use crate::glyph::{
    pen_x, run_fits, shaped_run, GlyphInfo, GlyphPosition, ShapedGlyph, ShapedGlyphIter,
};
use crate::text::{
    byte_len, bytes_of, lemma_boundary_in_range, lemma_boundary_kept, lemma_boundary_shifted,
    lemma_encode_concat, on_boundary, str_between, str_byte_len,
};
use vstd::prelude::*;
use vstd::slice::slice_subrange;
use vstd::string::StringExecFns;
use vstd::utf8::{decode_utf8, encode_utf8_valid_utf8};

verus! {

/// A line-break opportunity: the byte offset at which a segment ends, and
/// whether the line must break there.
#[derive(Debug, Clone, Copy, PartialEq, Eq, Hash, Structural)]
pub struct LineBreak {
    pub index: usize,
    pub hard: bool,
}

/// What the shaping engine reported for one segment: parallel arrays of
/// positions and infos.
#[derive(Debug)]
pub struct GlyphRun {
    pub positions: Vec<GlyphPosition>,
    pub infos: Vec<GlyphInfo>,
}

/// Where one segment lies in a buffer.
#[derive(Debug, Clone, Copy, PartialEq, Eq, Hash, Structural)]
pub struct SegmentDescriptor {
    /// First byte of the segment in the buffer's text.
    pub text_start: usize,
    /// One past the last byte of the segment.
    pub text_end: usize,
    /// First record of the segment in the buffer's glyphs.
    pub glyph_start: usize,
    /// One past the last record of the segment.
    pub glyph_end: usize,
    /// Horizontal pen position after the segment's last glyph.
    pub advance: i32,
    /// Whether the line must break after the segment.
    pub hard_break: bool,
}

/// One segment of a buffer, resolved to the text and glyphs it covers.
#[derive(Debug, Clone, Copy)]
pub struct ShapedSegment<'a> {
    pub text: &'a str,
    pub text_start: usize,
    pub text_end: usize,
    pub shaped_glyphs: &'a [ShapedGlyph],
    pub advance: i32,
    pub hard_break: bool,
}

/// The contents of a buffer.
pub ghost struct BufferView {
    pub text: Seq<char>,
    pub glyphs: Seq<ShapedGlyph>,
    pub segments: Seq<SegmentDescriptor>,
}

/// Byte offset, within the appended text, at which segment `k` starts: the
/// break before it, or the start of the text.
pub open spec fn segment_start(breaks: Seq<LineBreak>, k: int) -> int {
    if k <= 0 {
        0
    } else {
        breaks[k - 1].index as int
    }
}

/// Breaks that cut `text` into segments: each lies on a character boundary and
/// none lies before its predecessor.
pub open spec fn valid_breaks(text: Seq<char>, breaks: Seq<LineBreak>) -> bool {
    forall|k: int|
        0 <= k < breaks.len() ==> {
            &&& on_boundary(text, (#[trigger] breaks[k]).index as int)
            &&& segment_start(breaks, k) <= breaks[k].index
        }
}

/// Breaks that cut the whole of `text` into segments that are not empty:
/// each lies on a character boundary behind the start of the text and behind
/// every break before it, and the last one is a mandatory break at the end of
/// the text. The empty text has none.
pub open spec fn partitions(text: Seq<char>, breaks: Seq<LineBreak>) -> bool {
    &&& forall|k: int|
        0 <= k < breaks.len() ==> {
            &&& on_boundary(text, (#[trigger] breaks[k]).index as int)
            &&& 0 < breaks[k].index
        }
    &&& forall|i: int, j: int|
        0 <= i < j < breaks.len() ==> (#[trigger] breaks[i]).index < (#[trigger] breaks[j]).index
    &&& text.len() == 0 ==> breaks.len() == 0
    &&& text.len() > 0 ==> {
        &&& breaks.len() > 0
        &&& breaks.last().index == byte_len(text)
        &&& breaks.last().hard
    }
}

/// Breaks that cut the whole of a text cut it into segments.
pub proof fn lemma_partitions_valid(text: Seq<char>, breaks: Seq<LineBreak>)
    requires
        partitions(text, breaks),
    ensures
        valid_breaks(text, breaks),
{
    assert forall|k: int| 0 <= k < breaks.len() implies {
        &&& on_boundary(text, (#[trigger] breaks[k]).index as int)
        &&& segment_start(breaks, k) <= breaks[k].index
    } by {
        if k > 0 {
            assert(breaks[k - 1].index < breaks[k].index);
        }
    }
}

/// One run per break, each recordable at the place where its segment starts
/// when the appended text begins at byte `offset`.
pub open spec fn runs_fit(offset: int, breaks: Seq<LineBreak>, runs: Seq<GlyphRun>) -> bool {
    &&& runs.len() == breaks.len()
    &&& forall|k: int|
        0 <= k < runs.len() ==> run_fits(
            (#[trigger] runs[k]).positions@,
            runs[k].infos@,
            offset + segment_start(breaks, k),
        )
}

/// The descriptor of segment `k` of a call whose text begins at byte `offset`,
/// when `glyphs_before` records precede the segment's own.
pub open spec fn descriptor(
    glyphs_before: int,
    offset: int,
    breaks: Seq<LineBreak>,
    runs: Seq<GlyphRun>,
    k: int,
) -> SegmentDescriptor {
    SegmentDescriptor {
        text_start: (offset + segment_start(breaks, k)) as usize,
        text_end: (offset + breaks[k].index) as usize,
        glyph_start: glyphs_before as usize,
        glyph_end: (glyphs_before + runs[k].positions@.len()) as usize,
        advance: pen_x(runs[k].positions@, runs[k].positions@.len() as int) as i32,
        hard_break: breaks[k].hard,
    }
}

/// `v` with segment `k` of a call recorded after what it holds.
pub open spec fn with_segment(
    v: BufferView,
    offset: int,
    breaks: Seq<LineBreak>,
    runs: Seq<GlyphRun>,
    k: int,
) -> BufferView {
    BufferView {
        text: v.text,
        glyphs: v.glyphs + shaped_run(
            runs[k].positions@,
            runs[k].infos@,
            offset + segment_start(breaks, k),
        ),
        segments: v.segments.push(descriptor(v.glyphs.len() as int, offset, breaks, runs, k)),
    }
}

/// `v` with the first `n` segments of a call recorded, in order.
pub open spec fn with_segments(
    v: BufferView,
    offset: int,
    breaks: Seq<LineBreak>,
    runs: Seq<GlyphRun>,
    n: int,
) -> BufferView
    decreases n,
{
    if n <= 0 {
        v
    } else {
        with_segment(with_segments(v, offset, breaks, runs, n - 1), offset, breaks, runs, n - 1)
    }
}

/// `v` after one shaping call: `text` joins the text, and every segment that
/// `breaks` cuts out of it is recorded with the glyphs of its run.
pub open spec fn appended(
    v: BufferView,
    text: Seq<char>,
    breaks: Seq<LineBreak>,
    runs: Seq<GlyphRun>,
) -> BufferView {
    with_segments(
        BufferView { text: v.text + text, glyphs: v.glyphs, segments: v.segments },
        byte_len(v.text),
        breaks,
        runs,
        breaks.len() as int,
    )
}

/// End of the text range of the segment before `k`; 0 before the first.
pub open spec fn text_before(segments: Seq<SegmentDescriptor>, k: int) -> int {
    if k <= 0 {
        0
    } else {
        segments[k - 1].text_end as int
    }
}

/// End of the glyph range of the segment before `k`; 0 before the first.
pub open spec fn glyphs_before(segments: Seq<SegmentDescriptor>, k: int) -> int {
    if k <= 0 {
        0
    } else {
        segments[k - 1].glyph_end as int
    }
}

impl BufferView {
    /// Segment `k` names a slice of the text that ends on character
    /// boundaries and starts no earlier than its predecessor ends, and the
    /// slice of the glyphs that starts where its predecessor's ends.
    pub open spec fn segment_wf(self, k: int) -> bool {
        let s = self.segments[k];
        &&& text_before(self.segments, k) <= s.text_start <= s.text_end <= byte_len(self.text)
        &&& on_boundary(self.text, s.text_start as int)
        &&& on_boundary(self.text, s.text_end as int)
        &&& s.glyph_start == glyphs_before(self.segments, k)
        &&& s.glyph_start <= s.glyph_end <= self.glyphs.len()
    }

    /// Every segment is well formed and the glyph ranges cover the glyphs
    /// exactly.
    pub open spec fn wf(self) -> bool {
        &&& forall|k: int| 0 <= k < self.segments.len() ==> #[trigger] self.segment_wf(k)
        &&& glyphs_before(self.segments, self.segments.len() as int) == self.glyphs.len()
    }

    /// The buffer that holds nothing.
    pub open spec fn empty() -> BufferView {
        BufferView { text: Seq::empty(), glyphs: Seq::empty(), segments: Seq::empty() }
    }
}

/// Append-only store of shaped text.
pub struct ShapedBuffer {
    text: String,
    glyphs: Vec<ShapedGlyph>,
    segments: Vec<SegmentDescriptor>,
}

impl View for ShapedBuffer {
    type V = BufferView;

    closed spec fn view(&self) -> BufferView {
        BufferView { text: self.text@, glyphs: self.glyphs@, segments: self.segments@ }
    }
}

/// `String::clear`: the string becomes empty; its allocation is kept.
#[verifier::external_body]
fn clear_string(s: &mut String)
    ensures
        final(s)@ == Seq::<char>::empty(),
{
    s.clear()
}

/// Extending the text of a well-formed buffer keeps it well formed.
proof fn lemma_text_extended(v: BufferView, text: Seq<char>)
    requires
        v.wf(),
    ensures
        (BufferView { text: v.text + text, glyphs: v.glyphs, segments: v.segments }).wf(),
        byte_len(v.text + text) == byte_len(v.text) + byte_len(text),
{
    let w = BufferView { text: v.text + text, glyphs: v.glyphs, segments: v.segments };
    lemma_encode_concat(v.text, text);
    encode_utf8_valid_utf8(v.text);
    encode_utf8_valid_utf8(text);
    assert forall|k: int| 0 <= k < w.segments.len() implies #[trigger] w.segment_wf(k) by {
        assert(v.segment_wf(k));
        lemma_boundary_kept(bytes_of(v.text), bytes_of(text), v.segments[k].text_start as int);
        lemma_boundary_kept(bytes_of(v.text), bytes_of(text), v.segments[k].text_end as int);
    }
}

/// Recording the next segment of a call keeps the buffer well formed.
proof fn lemma_segment_recorded(
    v: BufferView,
    old_text: Seq<char>,
    text: Seq<char>,
    breaks: Seq<LineBreak>,
    runs: Seq<GlyphRun>,
    k: int,
)
    requires
        v.wf(),
        v.text == old_text + text,
        valid_breaks(text, breaks),
        runs.len() == breaks.len(),
        0 <= k < breaks.len(),
        text_before(v.segments, v.segments.len() as int) <= byte_len(old_text) + segment_start(
            breaks,
            k,
        ),
        byte_len(v.text) <= usize::MAX,
        v.glyphs.len() + runs[k].positions@.len() <= usize::MAX,
    ensures
        with_segment(v, byte_len(old_text), breaks, runs, k).wf(),
        text_before(
            with_segment(v, byte_len(old_text), breaks, runs, k).segments,
            v.segments.len() as int + 1,
        ) == byte_len(old_text) + breaks[k].index,
{
    let offset = byte_len(old_text);
    let w = with_segment(v, offset, breaks, runs, k);
    let n = v.segments.len() as int;
    lemma_encode_concat(old_text, text);
    encode_utf8_valid_utf8(old_text);
    encode_utf8_valid_utf8(text);
    assert(on_boundary(text, breaks[k].index as int));
    lemma_boundary_in_range(bytes_of(text), breaks[k].index as int);
    lemma_boundary_shifted(bytes_of(old_text), bytes_of(text), breaks[k].index as int);
    if k > 0 {
        assert(on_boundary(text, breaks[k - 1].index as int));
        lemma_boundary_in_range(bytes_of(text), breaks[k - 1].index as int);
    }
    lemma_boundary_shifted(bytes_of(old_text), bytes_of(text), segment_start(breaks, k));
    assert forall|j: int| 0 <= j < w.segments.len() implies #[trigger] w.segment_wf(j) by {
        if j < n {
            assert(v.segment_wf(j));
            assert(w.segments[j] == v.segments[j]);
            if j > 0 {
                assert(w.segments[j - 1] == v.segments[j - 1]);
            }
        } else {
            if n > 0 {
                assert(w.segments[n - 1] == v.segments[n - 1]);
            }
        }
    }
}

impl ShapedBuffer {
    /// Whether the buffer's descriptors fit its text and glyphs.
    pub open spec fn wf(&self) -> bool {
        self@.wf()
    }

    /// A buffer that holds nothing.
    pub fn new() -> (buffer: ShapedBuffer)
        ensures
            buffer.wf(),
            buffer@ == BufferView::empty(),
    {
        ShapedBuffer { text: String::new(), glyphs: Vec::new(), segments: Vec::new() }
    }

    /// Records one shaping call: `text` is added to the text as it is, and for
    /// each break, in order, the glyphs of its run and the descriptor of the
    /// segment that ends there.
    pub fn append(&mut self, text: &str, breaks: &[LineBreak], runs: &[GlyphRun])
        requires
            old(self).wf(),
            valid_breaks(text@, breaks@),
            runs_fit(byte_len(old(self)@.text), breaks@, runs@),
        ensures
            final(self).wf(),
            final(self)@ == appended(old(self)@, text@, breaks@, runs@),
    {
        let ghost before = self@;
        let text_offset = str_byte_len(self.text.as_str());
        self.text.append(text);
        let total = str_byte_len(self.text.as_str());
        let ghost start = self@;
        proof {
            lemma_text_extended(before, text@);
            assert(start == (BufferView {
                text: before.text + text@,
                glyphs: before.glyphs,
                segments: before.segments,
            }));
            if before.segments.len() > 0 {
                assert(before.segment_wf(before.segments.len() - 1));
            }
        }
        let mut last_break: usize = 0;
        let mut k: usize = 0;
        while k < breaks.len()
            invariant
                0 <= k <= breaks@.len(),
                valid_breaks(text@, breaks@),
                runs_fit(text_offset as int, breaks@, runs@),
                text_offset == byte_len(before.text),
                total == text_offset + byte_len(text@),
                total == byte_len(before.text + text@),
                start.text == before.text + text@,
                self@.text == before.text + text@,
                last_break == segment_start(breaks@, k as int),
                self@ == with_segments(start, text_offset as int, breaks@, runs@, k as int),
                self@.wf(),
                text_before(self@.segments, self@.segments.len() as int) <= text_offset
                    + last_break,
            decreases breaks@.len() - k,
        {
            let brk = breaks[k];
            let run = &runs[k];
            proof {
                assert(on_boundary(text@, breaks@[k as int].index as int));
                encode_utf8_valid_utf8(text@);
                lemma_boundary_in_range(bytes_of(text@), brk.index as int);
                assert(run_fits(
                    runs@[k as int].positions@,
                    runs@[k as int].infos@,
                    text_offset + segment_start(breaks@, k as int),
                ));
            }
            let base = text_offset + last_break;
            let glyph_start = self.glyphs.len();
            let ghost recorded = self@;
            let ghost records = shaped_run(run.positions@, run.infos@, base as int);
            let mut iter = ShapedGlyphIter::new(run.positions.as_slice(), run.infos.as_slice(), base);
            loop
                invariant
                    iter.wf(),
                    iter.positions() == run.positions@,
                    iter.infos() == run.infos@,
                    iter.base() == base,
                    records == shaped_run(run.positions@, run.infos@, base as int),
                    self.text@ == recorded.text,
                    self.segments@ == recorded.segments,
                    self.glyphs@ == recorded.glyphs + records.subrange(0, iter.yielded()),
                ensures
                    self.text@ == recorded.text,
                    self.segments@ == recorded.segments,
                    self.glyphs@ == recorded.glyphs + records,
                    iter.wf(),
                    iter.positions() == run.positions@,
                    iter.yielded() == run.positions@.len(),
                decreases run.positions@.len() - iter.yielded(),
            {
                let ghost i = iter.yielded();
                match iter.next() {
                    Some(glyph) => {
                        self.glyphs.push(glyph);
                        proof {
                            assert(records.subrange(0, i + 1) =~= records.subrange(0, i).push(
                                records[i],
                            ));
                            assert(self.glyphs@ =~= recorded.glyphs + records.subrange(0, i + 1));
                        }
                    },
                    None => {
                        proof {
                            assert(records.subrange(0, i) =~= records);
                        }
                        break ;
                    },
                }
            }
            let advance = iter.cursor().x;
            let glyph_end = self.glyphs.len();
            self.segments.push(
                SegmentDescriptor {
                    text_start: base,
                    text_end: text_offset + brk.index,
                    glyph_start,
                    glyph_end,
                    advance,
                    hard_break: brk.hard,
                },
            );
            proof {
                lemma_segment_recorded(recorded, before.text, text@, breaks@, runs@, k as int);
                assert(self@ == with_segment(recorded, text_offset as int, breaks@, runs@, k as int));
            }
            last_break = brk.index;
            k = k + 1;
        }
    }

    /// Empties the text, the glyphs and the segments; what was allocated for
    /// them is kept.
    pub fn clear(&mut self)
        ensures
            final(self).wf(),
            final(self)@ == BufferView::empty(),
    {
        clear_string(&mut self.text);
        self.glyphs.clear();
        self.segments.clear();
    }

    /// Number of segments recorded.
    pub fn segment_count(&self) -> (count: usize)
        ensures
            count == self@.segments.len(),
    {
        self.segments.len()
    }

    /// The whole text recorded.
    pub fn text(&self) -> (text: &str)
        ensures
            text@ == self@.text,
    {
        self.text.as_str()
    }

    /// The glyph records of all segments, in order.
    pub fn glyphs(&self) -> (glyphs: &[ShapedGlyph])
        ensures
            glyphs@ == self@.glyphs,
    {
        self.glyphs.as_slice()
    }

    /// The descriptor of segment `index`, if there is one.
    pub fn descriptor(&self, index: usize) -> (found: Option<SegmentDescriptor>)
        ensures
            index < self@.segments.len() ==> found == Some(self@.segments[index as int]),
            index >= self@.segments.len() ==> found.is_none(),
    {
        if index < self.segments.len() {
            Some(self.segments[index])
        } else {
            None
        }
    }

    /// Segment `index` with its text and glyphs, if there is one.
    pub fn segment(&self, index: usize) -> (found: Option<ShapedSegment<'_>>)
        requires
            self.wf(),
        ensures
            index >= self@.segments.len() ==> found.is_none(),
            index < self@.segments.len() ==> {
                let d = self@.segments[index as int];
                &&& found matches Some(s)
                &&& s.text@ == decode_utf8(
                    bytes_of(self@.text).subrange(d.text_start as int, d.text_end as int),
                )
                &&& bytes_of(s.text@) == bytes_of(self@.text).subrange(
                    d.text_start as int,
                    d.text_end as int,
                )
                &&& s.shaped_glyphs@ == self@.glyphs.subrange(
                    d.glyph_start as int,
                    d.glyph_end as int,
                )
                &&& s.text_start == d.text_start
                &&& s.text_end == d.text_end
                &&& s.advance == d.advance
                &&& s.hard_break == d.hard_break
            },
    {
        if index >= self.segments.len() {
            return None;
        }
        let d = self.segments[index];
        proof {
            assert(self@.segment_wf(index as int));
        }
        let text = str_between(self.text.as_str(), d.text_start, d.text_end);
        let shaped_glyphs = slice_subrange(self.glyphs.as_slice(), d.glyph_start, d.glyph_end);
        Some(
            ShapedSegment {
                text,
                text_start: d.text_start,
                text_end: d.text_end,
                shaped_glyphs,
                advance: d.advance,
                hard_break: d.hard_break,
            },
        )
    }
}

} // verus!
