use glyphydog::buffer::{GlyphRun, LineBreak, ShapedBuffer};
use glyphydog::error::Error;
use glyphydog::face::HBFont;
use glyphydog::size::{FaceSize, FontSizeRequest, DPI};
use glyphydog::glyph::{GlyphInfo, GlyphPosition};
use glyphydog::shaper::{check_breaks, line_breaks, segment_part, Shaper};

/// A stand-in for the shaping engine with a monospaced font: one glyph for
/// each character that is not white space, ten pixels wide.
fn shape(segment: &str) -> GlyphRun {
    let mut positions = Vec::new();
    let mut infos = Vec::new();
    for (i, c) in segment.char_indices() {
        if !c.is_whitespace() {
            positions.push(GlyphPosition { x_advance: 640, y_advance: 0, x_offset: 0, y_offset: 0 });
            infos.push(GlyphInfo { codepoint: c as u32, cluster: i as u32 });
        }
    }
    GlyphRun { positions, infos }
}

fn shape_all(text: &str, breaks: &[LineBreak]) -> Vec<GlyphRun> {
    (0..breaks.len()).map(|k| shape(segment_part(text, breaks, k))).collect()
}

#[test]
fn hello_world_has_two_segments() {
    let text = "Hello World!";
    let shaper = Shaper::new();
    let breaks = shaper.segment_text(text);
    assert_eq!(
        breaks,
        vec![LineBreak { index: 6, hard: false }, LineBreak { index: 12, hard: true }]
    );

    let runs = shape_all(text, &breaks);
    let mut buffer = ShapedBuffer::new();
    let mut face = HBFont::new(None);
    let size = FaceSize::new(16 * 64, 16 * 64);
    let dpi = DPI::new(72, 72);
    assert_eq!(shaper.shape_text(text, &mut face, size, dpi, 0, &runs, &mut buffer), Ok(true));
    assert_eq!(face.size_request, FontSizeRequest::of(size, dpi));

    assert_eq!(buffer.segment_count(), 2);
    let first = buffer.segment(0).unwrap();
    let last = buffer.segment(1).unwrap();
    assert_eq!(first.text, "Hello ");
    assert_eq!(last.text, "World!");
    assert!(!first.hard_break);
    assert!(last.hard_break);
    assert_eq!(buffer.glyphs().len(), 11);
    assert_eq!(first.shaped_glyphs.len(), 5);
    assert_eq!(last.shaped_glyphs.len(), 6);
    assert_eq!(first.advance, 50);
    assert_eq!(last.advance, 60);
    assert_eq!(last.shaped_glyphs[0].str_index, 6);
    assert_eq!(last.shaped_glyphs[0].word_str_index, 0);
    assert_eq!(last.shaped_glyphs[5].pos.x, 50);
}

#[test]
fn line_breaks_follow_the_classifier() {
    assert_eq!(line_breaks(""), vec![]);
    assert_eq!(line_breaks("a"), vec![LineBreak { index: 1, hard: true }]);
    assert_eq!(
        line_breaks("a\nb c"),
        vec![
            LineBreak { index: 2, hard: true },
            LineBreak { index: 4, hard: false },
            LineBreak { index: 5, hard: true },
        ]
    );
    assert_eq!(
        line_breaks("Γειά σου"),
        vec![LineBreak { index: 9, hard: false }, LineBreak { index: 15, hard: true }]
    );
}

#[test]
fn check_breaks_wants_boundaries_in_order() {
    let text = "Γειά σου";
    assert!(check_breaks(text, &[]));
    assert!(check_breaks(text, &[LineBreak { index: 9, hard: false }]));
    assert!(check_breaks(
        text,
        &[LineBreak { index: 0, hard: false }, LineBreak { index: 0, hard: false }]
    ));
    assert!(check_breaks(
        text,
        &[LineBreak { index: 9, hard: false }, LineBreak { index: 15, hard: true }]
    ));
    // Inside a character.
    assert!(!check_breaks(text, &[LineBreak { index: 1, hard: false }]));
    // Behind the end.
    assert!(!check_breaks(text, &[LineBreak { index: 16, hard: true }]));
    // Out of order.
    assert!(!check_breaks(
        text,
        &[LineBreak { index: 9, hard: false }, LineBreak { index: 8, hard: true }]
    ));
}

#[test]
fn record_refuses_what_it_cannot_record() {
    let text = "Hello World!";
    let shaper = Shaper::new();
    let breaks = shaper.segment_text(text);
    let mut buffer = ShapedBuffer::new();
    assert!(shaper.record("x", &[shape("x")], &mut buffer));

    // One run too few.
    let mut runs = shape_all(text, &breaks);
    runs.pop();
    assert!(!shaper.record(text, &runs, &mut buffer));
    // A run whose arrays differ in length.
    let mut runs = shape_all(text, &breaks);
    runs[1].infos.pop();
    assert!(!shaper.record(text, &runs, &mut buffer));
    // A run whose pen leaves the range of a position.
    let mut runs = shape_all(text, &breaks);
    runs[0].positions[0].x_offset = i32::MAX;
    runs[0].positions[1].x_offset = i32::MAX;
    assert!(!shaper.record(text, &runs, &mut buffer));

    assert_eq!(buffer.text(), "x");
    assert_eq!(buffer.segment_count(), 1);
    assert_eq!(buffer.glyphs().len(), 1);

    let runs = shape_all(text, &breaks);
    assert!(shaper.record(text, &runs, &mut buffer));
    assert_eq!(buffer.text(), "xHello World!");
    assert_eq!(buffer.segment_count(), 3);
    assert_eq!(buffer.segment(2).unwrap().text, "World!");
    assert_eq!(buffer.segment(2).unwrap().shaped_glyphs[0].str_index, 7);
}

#[test]
fn two_calls_match_one_call_on_the_joined_text() {
    let shaper = Shaper::new();
    let first = "Γειά σου Κόσμε!\n";
    let second = "Hello World!";
    let joined = "Γειά σου Κόσμε!\nHello World!";

    let mut twice = ShapedBuffer::new();
    let breaks_a = shaper.segment_text(first);
    assert!(shaper.record(first, &shape_all(first, &breaks_a), &mut twice));
    let breaks_b = shaper.segment_text(second);
    assert!(shaper.record(second, &shape_all(second, &breaks_b), &mut twice));

    let mut once = ShapedBuffer::new();
    let breaks = shaper.segment_text(joined);
    assert!(shaper.record(joined, &shape_all(joined, &breaks), &mut once));

    assert_eq!(twice.text(), once.text());
    assert_eq!(twice.glyphs(), once.glyphs());
    assert_eq!(twice.segment_count(), once.segment_count());
    for k in 0..twice.segment_count() {
        assert_eq!(twice.descriptor(k), once.descriptor(k));
    }
}

#[test]
fn empty_text_adds_nothing() {
    let shaper = Shaper::new();
    assert_eq!(shaper.segment_text(""), vec![]);
    let mut buffer = ShapedBuffer::new();
    assert!(shaper.record("", &[], &mut buffer));
    assert_eq!(buffer.segment_count(), 0);
    assert_eq!(buffer.text(), "");
}

#[test]
fn refused_resize_commits_nothing() {
    let shaper = Shaper::new();
    let text = "Hello World!";
    let breaks = shaper.segment_text(text);
    let runs = shape_all(text, &breaks);
    let size = FaceSize::new(16 * 64, 16 * 64);
    let dpi = DPI::new(72, 72);
    let mut face = HBFont::new(None);
    let mut buffer = ShapedBuffer::new();
    assert!(shaper.record("x", &[shape("x")], &mut buffer));

    assert_eq!(
        shaper.shape_text(text, &mut face, size, dpi, 23, &runs, &mut buffer),
        Err(Error::InvalidPixelSize)
    );
    assert_eq!(face, HBFont::new(None));
    assert_eq!(buffer.text(), "x");
    assert_eq!(buffer.segment_count(), 1);
    assert_eq!(buffer.glyphs().len(), 1);

    assert_eq!(shaper.shape_text(text, &mut face, size, dpi, 0, &runs, &mut buffer), Ok(true));
    assert_eq!(buffer.text(), "xHello World!");
    assert_eq!(buffer.segment_count(), 3);
    // The face is at the size now: the status of a resize is not looked at.
    assert_eq!(shaper.shape_text(text, &mut face, size, dpi, 23, &runs, &mut buffer), Ok(true));
    assert_eq!(buffer.segment_count(), 5);
    // A call that cannot be recorded still leaves the face resized.
    let other = DPI::new(96, 96);
    assert_eq!(shaper.shape_text(text, &mut face, size, other, 0, &[], &mut buffer), Ok(false));
    assert_eq!(face.size_request, FontSizeRequest::of(size, other));
    assert_eq!(buffer.segment_count(), 5);
}

#[test]
fn segment_part_lies_between_two_breaks() {
    let text = "Γειά σου Κόσμε!";
    let breaks = line_breaks(text);
    assert_eq!(breaks.len(), 3);
    assert_eq!(segment_part(text, &breaks, 0), "Γειά ");
    assert_eq!(segment_part(text, &breaks, 1), "σου ");
    assert_eq!(segment_part(text, &breaks, 2), "Κόσμε!");
    let empty = [LineBreak { index: 0, hard: false }, LineBreak { index: 9, hard: false }];
    assert_eq!(segment_part(text, &empty, 0), "");
    assert_eq!(segment_part(text, &empty, 1), "Γειά ");
}

#[test]
fn a_call_covers_its_text_and_ends_in_a_hard_break() {
    let shaper = Shaper::new();
    let mut buffer = ShapedBuffer::new();
    let mut expected_start = 0;
    for text in ["one two", "three\nfour five ", "Γειά σου", "x"] {
        let breaks = shaper.segment_text(text);
        assert!(check_breaks(text, &breaks));
        assert_eq!(breaks.last().unwrap().index, text.len());
        assert!(breaks.last().unwrap().hard);
        let before = buffer.segment_count();
        assert!(shaper.record(text, &shape_all(text, &breaks), &mut buffer));
        assert!(buffer.segment_count() > before);
        for k in before..buffer.segment_count() {
            let d = buffer.descriptor(k).unwrap();
            assert_eq!(d.text_start, expected_start);
            assert!(d.text_start < d.text_end);
            expected_start = d.text_end;
        }
        let last = buffer.descriptor(buffer.segment_count() - 1).unwrap();
        assert_eq!(last.text_end, buffer.text().len());
        assert!(last.hard_break);
    }
}
