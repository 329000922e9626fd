//! What holds of a buffer over several calls.

use crate::buffer::{
    appended, descriptor, lemma_partitions_valid, partitions, runs_fit, segment_start,
    valid_breaks, with_segments, BufferView, GlyphRun, LineBreak,
};
use crate::glyph::{run_fits, shaped_run};
use crate::text::{byte_len, bytes_of, lemma_boundary_in_range, lemma_encode_concat, on_boundary};
use vstd::prelude::*;
use vstd::utf8::encode_utf8_valid_utf8;

verus! {

/// `breaks` moved `by` bytes further into a text.
pub open spec fn shifted(breaks: Seq<LineBreak>, by: int) -> Seq<LineBreak> {
    breaks.map_values(|b: LineBreak| LineBreak { index: (b.index + by) as usize, hard: b.hard })
}

/// The breaks of `text` reach its end: the last one lies there, or the text
/// is empty and has none.
pub open spec fn breaks_reach_end(text: Seq<char>, breaks: Seq<LineBreak>) -> bool {
    if breaks.len() == 0 {
        byte_len(text) == 0
    } else {
        breaks.last().index == byte_len(text)
    }
}

/// Number of glyphs in the first `n` runs.
pub open spec fn glyph_count(runs: Seq<GlyphRun>, n: int) -> int
    decreases n,
{
    if n <= 0 {
        0
    } else {
        glyph_count(runs, n - 1) + runs[n - 1].positions@.len()
    }
}

/// The text of a buffer passes through the recording of segments.
proof fn lemma_text_passes(
    v: BufferView,
    text: Seq<char>,
    offset: int,
    breaks: Seq<LineBreak>,
    runs: Seq<GlyphRun>,
    n: int,
)
    ensures
        with_segments(
            BufferView { text, glyphs: v.glyphs, segments: v.segments },
            offset,
            breaks,
            runs,
            n,
        ) == (BufferView {
            text,
            glyphs: with_segments(v, offset, breaks, runs, n).glyphs,
            segments: with_segments(v, offset, breaks, runs, n).segments,
        }),
    decreases n,
{
    if n > 0 {
        lemma_text_passes(v, text, offset, breaks, runs, n - 1);
    }
}

/// Recording the first `n` segments looks at the first `n` breaks and runs
/// only.
proof fn lemma_prefix_only(
    v: BufferView,
    offset: int,
    breaks: Seq<LineBreak>,
    runs: Seq<GlyphRun>,
    more_breaks: Seq<LineBreak>,
    more_runs: Seq<GlyphRun>,
    n: int,
)
    requires
        n <= breaks.len(),
        n <= runs.len(),
    ensures
        with_segments(v, offset, breaks + more_breaks, runs + more_runs, n) == with_segments(
            v,
            offset,
            breaks,
            runs,
            n,
        ),
    decreases n,
{
    if n > 0 {
        lemma_prefix_only(v, offset, breaks, runs, more_breaks, more_runs, n - 1);
        assert((breaks + more_breaks)[n - 1] == breaks[n - 1]);
        assert((runs + more_runs)[n - 1] == runs[n - 1]);
        if n > 1 {
            assert((breaks + more_breaks)[n - 2] == breaks[n - 2]);
        }
    }
}

/// In the breaks of two texts joined, a segment of the second text starts
/// where it starts in the second text, moved behind the first.
proof fn lemma_joint_start(
    first: Seq<char>,
    breaks_a: Seq<LineBreak>,
    second: Seq<char>,
    breaks_b: Seq<LineBreak>,
    j: int,
)
    requires
        breaks_reach_end(first, breaks_a),
        valid_breaks(second, breaks_b),
        byte_len(first) + byte_len(second) <= usize::MAX,
        0 <= j < breaks_b.len(),
    ensures
        segment_start(breaks_a + shifted(breaks_b, byte_len(first)), breaks_a.len() + j)
            == byte_len(first) + segment_start(breaks_b, j),
        (breaks_a + shifted(breaks_b, byte_len(first)))[breaks_a.len() + j].index == byte_len(
            first,
        ) + breaks_b[j].index,
        (breaks_a + shifted(breaks_b, byte_len(first)))[breaks_a.len() + j].hard
            == breaks_b[j].hard,
{
    let joint = breaks_a + shifted(breaks_b, byte_len(first));
    let count = breaks_a.len() as int;
    encode_utf8_valid_utf8(second);
    assert(on_boundary(second, breaks_b[j].index as int));
    lemma_boundary_in_range(bytes_of(second), breaks_b[j].index as int);
    assert(joint[count + j] == shifted(breaks_b, byte_len(first))[j]);
    if j > 0 {
        assert(on_boundary(second, breaks_b[j - 1].index as int));
        lemma_boundary_in_range(bytes_of(second), breaks_b[j - 1].index as int);
        assert(joint[count + j - 1] == shifted(breaks_b, byte_len(first))[j - 1]);
    } else if count > 0 {
        assert(joint[count - 1] == breaks_a[count - 1]);
    }
}

/// Runs that can be recorded in two calls can be recorded in one call on the
/// joined text, with the breaks of the second text moved behind the first.
pub proof fn lemma_joint_runs_fit(
    offset: int,
    first: Seq<char>,
    breaks_a: Seq<LineBreak>,
    runs_a: Seq<GlyphRun>,
    second: Seq<char>,
    breaks_b: Seq<LineBreak>,
    runs_b: Seq<GlyphRun>,
)
    requires
        runs_fit(offset, breaks_a, runs_a),
        runs_fit(offset + byte_len(first), breaks_b, runs_b),
        breaks_reach_end(first, breaks_a),
        valid_breaks(second, breaks_b),
        byte_len(first) + byte_len(second) <= usize::MAX,
    ensures
        runs_fit(offset, breaks_a + shifted(breaks_b, byte_len(first)), runs_a + runs_b),
{
    let joint = breaks_a + shifted(breaks_b, byte_len(first));
    let runs = runs_a + runs_b;
    let count = breaks_a.len() as int;
    assert forall|k: int| 0 <= k < runs.len() implies run_fits(
        (#[trigger] runs[k]).positions@,
        runs[k].infos@,
        offset + segment_start(joint, k),
    ) by {
        if k < count {
            assert(runs[k] == runs_a[k]);
            if k > 0 {
                assert(joint[k - 1] == breaks_a[k - 1]);
            }
            assert(run_fits(
                runs_a[k].positions@,
                runs_a[k].infos@,
                offset + segment_start(breaks_a, k),
            ));
        } else {
            let j = k - count;
            assert(runs[k] == runs_b[j]);
            lemma_joint_start(first, breaks_a, second, breaks_b, j);
            assert(run_fits(
                runs_b[j].positions@,
                runs_b[j].infos@,
                offset + byte_len(first) + segment_start(breaks_b, j),
            ));
        }
    }
}

/// Recording the segments of a second text after those of a first equals
/// recording the segments of both from one list of breaks.
proof fn lemma_joint_segments(
    v: BufferView,
    offset: int,
    first: Seq<char>,
    breaks_a: Seq<LineBreak>,
    runs_a: Seq<GlyphRun>,
    second: Seq<char>,
    breaks_b: Seq<LineBreak>,
    runs_b: Seq<GlyphRun>,
    n: int,
)
    requires
        runs_a.len() == breaks_a.len(),
        runs_b.len() == breaks_b.len(),
        breaks_reach_end(first, breaks_a),
        valid_breaks(second, breaks_b),
        byte_len(first) + byte_len(second) <= usize::MAX,
        0 <= n <= breaks_b.len(),
    ensures
        with_segments(
            with_segments(v, offset, breaks_a, runs_a, breaks_a.len() as int),
            offset + byte_len(first),
            breaks_b,
            runs_b,
            n,
        ) == with_segments(
            v,
            offset,
            breaks_a + shifted(breaks_b, byte_len(first)),
            runs_a + runs_b,
            breaks_a.len() + n,
        ),
    decreases n,
{
    let joint = breaks_a + shifted(breaks_b, byte_len(first));
    let runs = runs_a + runs_b;
    let count = breaks_a.len() as int;
    if n == 0 {
        lemma_prefix_only(
            v,
            offset,
            breaks_a,
            runs_a,
            shifted(breaks_b, byte_len(first)),
            runs_b,
            count,
        );
    } else {
        lemma_joint_segments(
            v,
            offset,
            first,
            breaks_a,
            runs_a,
            second,
            breaks_b,
            runs_b,
            n - 1,
        );
        let k = n - 1;
        encode_utf8_valid_utf8(second);
        assert(on_boundary(second, breaks_b[k].index as int));
        lemma_boundary_in_range(bytes_of(second), breaks_b[k].index as int);
        assert(joint[count + k] == shifted(breaks_b, byte_len(first))[k]);
        assert(joint[count + k].index == breaks_b[k].index + byte_len(first));
        assert(runs[count + k] == runs_b[k]);
        if k > 0 {
            assert(on_boundary(second, breaks_b[k - 1].index as int));
            lemma_boundary_in_range(bytes_of(second), breaks_b[k - 1].index as int);
            assert(joint[count + k - 1] == shifted(breaks_b, byte_len(first))[k - 1]);
        } else if count > 0 {
            assert(joint[count - 1] == breaks_a[count - 1]);
        }
        assert(segment_start(joint, count + k) == byte_len(first) + segment_start(breaks_b, k));
    }
}

/// Append is associative over the seam of two calls. Shaping a first text
/// and then a second into a buffer leaves the glyphs and segments that one
/// call leaves for the two texts joined, when that call is given the breaks
/// of the first text, which end at the seam, followed by the breaks of the
/// second text moved behind the first, and the runs of both. The seam is a
/// segment boundary in both.
pub proof fn lemma_append_associative(
    v: BufferView,
    first: Seq<char>,
    breaks_a: Seq<LineBreak>,
    runs_a: Seq<GlyphRun>,
    second: Seq<char>,
    breaks_b: Seq<LineBreak>,
    runs_b: Seq<GlyphRun>,
)
    requires
        runs_a.len() == breaks_a.len(),
        runs_b.len() == breaks_b.len(),
        breaks_reach_end(first, breaks_a),
        valid_breaks(second, breaks_b),
        byte_len(first) + byte_len(second) <= usize::MAX,
    ensures
        appended(appended(v, first, breaks_a, runs_a), second, breaks_b, runs_b) == appended(
            v,
            first + second,
            breaks_a + shifted(breaks_b, byte_len(first)),
            runs_a + runs_b,
        ),
{
    let offset = byte_len(v.text);
    let joint = breaks_a + shifted(breaks_b, byte_len(first));
    let runs = runs_a + runs_b;
    let count = breaks_a.len() as int;
    let whole = v.text + (first + second);
    let after_first = appended(v, first, breaks_a, runs_a);
    lemma_encode_concat(v.text, first);
    lemma_text_passes(v, v.text + first, offset, breaks_a, runs_a, count);
    assert(after_first.text == v.text + first);
    assert((v.text + first) + second =~= whole);
    lemma_text_passes(v, whole, offset, breaks_a, runs_a, count);
    let restarted = BufferView {
        text: whole,
        glyphs: after_first.glyphs,
        segments: after_first.segments,
    };
    let opened = BufferView { text: whole, glyphs: v.glyphs, segments: v.segments };
    assert(restarted == with_segments(opened, offset, breaks_a, runs_a, count));
    lemma_joint_segments(
        opened,
        offset,
        first,
        breaks_a,
        runs_a,
        second,
        breaks_b,
        runs_b,
        breaks_b.len() as int,
    );
    assert(joint.len() == count + breaks_b.len());
}

/// A call adds one segment for each break and the glyphs of every run.
pub proof fn lemma_appended_lengths(
    v: BufferView,
    offset: int,
    breaks: Seq<LineBreak>,
    runs: Seq<GlyphRun>,
    n: int,
)
    requires
        0 <= n,
    ensures
        with_segments(v, offset, breaks, runs, n).segments.len() == v.segments.len() + n,
        with_segments(v, offset, breaks, runs, n).glyphs.len() == v.glyphs.len() + glyph_count(
            runs,
            n,
        ),
        with_segments(v, offset, breaks, runs, n).text == v.text,
    decreases n,
{
    if n > 0 {
        lemma_appended_lengths(v, offset, breaks, runs, n - 1);
    }
}

/// What a call records is kept by the rest of the call: after `n` segments,
/// segment `k < n` of the call is described as it was when it was recorded,
/// and its glyphs stand where they were put.
proof fn lemma_segment_kept(
    v: BufferView,
    offset: int,
    breaks: Seq<LineBreak>,
    runs: Seq<GlyphRun>,
    n: int,
    k: int,
)
    requires
        0 <= k < n,
    ensures
        with_segments(v, offset, breaks, runs, n).segments[v.segments.len() + k] == descriptor(
            v.glyphs.len() + glyph_count(runs, k),
            offset,
            breaks,
            runs,
            k,
        ),
        with_segments(v, offset, breaks, runs, n).glyphs.subrange(
            v.glyphs.len() + glyph_count(runs, k),
            v.glyphs.len() + glyph_count(runs, k + 1),
        ) == shaped_run(runs[k].positions@, runs[k].infos@, offset + segment_start(breaks, k)),
    decreases n,
{
    let before = with_segments(v, offset, breaks, runs, n - 1);
    let after = with_segments(v, offset, breaks, runs, n);
    lemma_appended_lengths(v, offset, breaks, runs, n - 1);
    lemma_appended_lengths(v, offset, breaks, runs, n);
    lemma_appended_lengths(v, offset, breaks, runs, k);
    lemma_appended_lengths(v, offset, breaks, runs, k + 1);
    let low = v.glyphs.len() + glyph_count(runs, k);
    let high = v.glyphs.len() + glyph_count(runs, k + 1);
    if k == n - 1 {
        assert(after.glyphs.subrange(low, high) =~= shaped_run(
            runs[k].positions@,
            runs[k].infos@,
            offset + segment_start(breaks, k),
        ));
    } else {
        lemma_segment_kept(v, offset, breaks, runs, n - 1, k);
        lemma_glyph_count_grows(runs, k + 1, n - 1);
        assert(after.glyphs.subrange(low, high) =~= before.glyphs.subrange(low, high));
    }
}

/// The glyph count of more runs is no smaller.
proof fn lemma_glyph_count_grows(runs: Seq<GlyphRun>, m: int, n: int)
    requires
        0 <= m <= n,
    ensures
        0 <= glyph_count(runs, m) <= glyph_count(runs, n),
    decreases n,
{
    if n > 0 {
        if m < n {
            lemma_glyph_count_grows(runs, m, n - 1);
        } else {
            lemma_glyph_count_grows(runs, m - 1, n - 1);
        }
    }
}

/// Slicing by a descriptor gives back what was recorded. For segment `k` of a
/// call, the descriptor that the call leaves names as many glyphs as the
/// shaping engine reported for the segment, the glyphs in that range are the
/// records of the segment's run, and the bytes in its text range are those of
/// the segment.
pub proof fn lemma_segment_round_trip(
    v: BufferView,
    text: Seq<char>,
    breaks: Seq<LineBreak>,
    runs: Seq<GlyphRun>,
    k: int,
)
    requires
        valid_breaks(text, breaks),
        runs.len() == breaks.len(),
        0 <= k < breaks.len(),
        byte_len(v.text) + byte_len(text) <= usize::MAX,
        v.glyphs.len() + glyph_count(runs, breaks.len() as int) <= usize::MAX,
    ensures
        ({
            let w = appended(v, text, breaks, runs);
            let d = w.segments[v.segments.len() + k];
            &&& w.segments.len() == v.segments.len() + breaks.len()
            &&& 0 <= d.text_start <= d.text_end <= byte_len(w.text)
            &&& 0 <= d.glyph_start <= d.glyph_end <= w.glyphs.len()
            &&& d.glyph_end - d.glyph_start == runs[k].positions@.len()
            &&& w.glyphs.subrange(d.glyph_start as int, d.glyph_end as int) == shaped_run(
                runs[k].positions@,
                runs[k].infos@,
                byte_len(v.text) + segment_start(breaks, k),
            )
            &&& bytes_of(w.text).subrange(d.text_start as int, d.text_end as int) == bytes_of(
                text,
            ).subrange(segment_start(breaks, k), breaks[k].index as int)
        }),
{
    let offset = byte_len(v.text);
    let n = breaks.len() as int;
    let opened = BufferView { text: v.text + text, glyphs: v.glyphs, segments: v.segments };
    let w = appended(v, text, breaks, runs);
    lemma_appended_lengths(opened, offset, breaks, runs, n);
    lemma_segment_kept(opened, offset, breaks, runs, n, k);
    lemma_glyph_count_grows(runs, k, k + 1);
    lemma_glyph_count_grows(runs, k + 1, n);
    lemma_encode_concat(v.text, text);
    encode_utf8_valid_utf8(text);
    assert(on_boundary(text, breaks[k].index as int));
    lemma_boundary_in_range(bytes_of(text), breaks[k].index as int);
    if k > 0 {
        assert(on_boundary(text, breaks[k - 1].index as int));
        lemma_boundary_in_range(bytes_of(text), breaks[k - 1].index as int);
    }
    let d = w.segments[v.segments.len() + k];
    assert(bytes_of(w.text).subrange(d.text_start as int, d.text_end as int) =~= bytes_of(
        text,
    ).subrange(segment_start(breaks, k), breaks[k].index as int));
}

/// Nothing of what a buffer held is left in what a call records after
/// `clear`, which leaves the empty buffer as `new` does. On the empty buffer
/// a call leaves its own text alone, one segment for each break and the
/// glyphs of its runs, and every descriptor counts bytes and glyphs from 0:
/// it is the one that the call's breaks and runs give with nothing before
/// them.
pub proof fn lemma_clear_resets(text: Seq<char>, breaks: Seq<LineBreak>, runs: Seq<GlyphRun>)
    requires
        runs.len() == breaks.len(),
    ensures
        BufferView::empty().wf(),
        appended(BufferView::empty(), text, breaks, runs).text == text,
        appended(BufferView::empty(), text, breaks, runs).segments.len() == breaks.len(),
        appended(BufferView::empty(), text, breaks, runs).glyphs.len() == glyph_count(
            runs,
            breaks.len() as int,
        ),
        forall|k: int|
            0 <= k < breaks.len() ==> #[trigger] appended(
                BufferView::empty(),
                text,
                breaks,
                runs,
            ).segments[k] == descriptor(glyph_count(runs, k), 0, breaks, runs, k),
{
    let n = breaks.len() as int;
    let opened = BufferView {
        text: Seq::<char>::empty() + text,
        glyphs: Seq::empty(),
        segments: Seq::empty(),
    };
    assert(Seq::<char>::empty() + text =~= text);
    assert(byte_len(Seq::<char>::empty()) == 0);
    lemma_appended_lengths(opened, 0, breaks, runs, n);
    assert forall|k: int| 0 <= k < breaks.len() implies #[trigger] appended(
        BufferView::empty(),
        text,
        breaks,
        runs,
    ).segments[k] == descriptor(glyph_count(runs, k), 0, breaks, runs, k) by {
        lemma_segment_kept(opened, 0, breaks, runs, n, k);
    }
}

/// Where a call puts the text of its segment `k`: between the break before
/// it and its own, counted from where the call's text begins in the buffer,
/// and flagged as its break is.
proof fn lemma_segment_text_range(
    v: BufferView,
    text: Seq<char>,
    breaks: Seq<LineBreak>,
    runs: Seq<GlyphRun>,
    k: int,
)
    requires
        valid_breaks(text, breaks),
        runs.len() == breaks.len(),
        0 <= k < breaks.len(),
        byte_len(v.text) + byte_len(text) <= usize::MAX,
    ensures
        appended(v, text, breaks, runs).segments[v.segments.len() + k].text_start == byte_len(
            v.text,
        ) + segment_start(breaks, k),
        appended(v, text, breaks, runs).segments[v.segments.len() + k].text_end == byte_len(
            v.text,
        ) + breaks[k].index,
        appended(v, text, breaks, runs).segments[v.segments.len() + k].hard_break
            == breaks[k].hard,
{
    let offset = byte_len(v.text);
    let opened = BufferView { text: v.text + text, glyphs: v.glyphs, segments: v.segments };
    lemma_segment_kept(opened, offset, breaks, runs, breaks.len() as int, k);
    encode_utf8_valid_utf8(text);
    assert(on_boundary(text, breaks[k].index as int));
    lemma_boundary_in_range(bytes_of(text), breaks[k].index as int);
    if k > 0 {
        assert(on_boundary(text, breaks[k - 1].index as int));
        lemma_boundary_in_range(bytes_of(text), breaks[k - 1].index as int);
    }
}

/// A call whose breaks cut the whole of its text adds segments that cover
/// the text from end to end: none for the empty text; otherwise the first
/// starts where the text begins in the buffer, each later one starts where
/// the one before ends, and the last ends at the end of the buffer's text,
/// in a mandatory break.
pub proof fn lemma_call_covers_text(
    v: BufferView,
    text: Seq<char>,
    breaks: Seq<LineBreak>,
    runs: Seq<GlyphRun>,
)
    requires
        partitions(text, breaks),
        runs.len() == breaks.len(),
        byte_len(v.text) + byte_len(text) <= usize::MAX,
    ensures
        ({
            let w = appended(v, text, breaks, runs);
            let first = v.segments.len() as int;
            &&& w.text == v.text + text
            &&& w.segments.len() == first + breaks.len()
            &&& (text.len() == 0 <==> breaks.len() == 0)
            &&& forall|k: int|
                first <= k < w.segments.len() ==> (#[trigger] w.segments[k]).text_start == (if k
                    == first {
                    byte_len(v.text)
                } else {
                    w.segments[k - 1].text_end as int
                })
            &&& text.len() > 0 ==> {
                &&& w.segments.last().text_end == byte_len(w.text)
                &&& w.segments.last().hard_break
            }
        }),
{
    let offset = byte_len(v.text);
    let n = breaks.len() as int;
    let first = v.segments.len() as int;
    let opened = BufferView { text: v.text + text, glyphs: v.glyphs, segments: v.segments };
    let w = appended(v, text, breaks, runs);
    lemma_partitions_valid(text, breaks);
    lemma_appended_lengths(opened, offset, breaks, runs, n);
    lemma_encode_concat(v.text, text);
    assert forall|k: int| first <= k < w.segments.len() implies (#[trigger] w.segments[k]).text_start
        == (if k == first {
        byte_len(v.text)
    } else {
        w.segments[k - 1].text_end as int
    }) by {
        let j = k - first;
        lemma_segment_text_range(v, text, breaks, runs, j);
        if j > 0 {
            lemma_segment_text_range(v, text, breaks, runs, j - 1);
        }
    }
    if text.len() > 0 {
        lemma_segment_text_range(v, text, breaks, runs, n - 1);
    }
}

} // verus!
