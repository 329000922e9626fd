use glyphydog::buffer::{GlyphRun, LineBreak, SegmentDescriptor, ShapedBuffer};
use glyphydog::geometry::{Point, Vector};
use glyphydog::glyph::{GlyphInfo, GlyphPosition, ShapedGlyph};

/// One glyph per byte of `text`, each `advance` 26.6 units wide, glyph index
/// equal to the byte.
fn run_for(text: &str, advance: i32) -> GlyphRun {
    let mut positions = Vec::new();
    let mut infos = Vec::new();
    for (i, b) in text.bytes().enumerate() {
        positions.push(GlyphPosition { x_advance: advance, y_advance: 0, x_offset: 0, y_offset: 0 });
        infos.push(GlyphInfo { codepoint: b as u32, cluster: i as u32 });
    }
    GlyphRun { positions, infos }
}

fn descriptors(buffer: &ShapedBuffer) -> Vec<SegmentDescriptor> {
    (0..buffer.segment_count()).map(|i| buffer.descriptor(i).unwrap()).collect()
}

#[test]
fn new_buffer_is_empty() {
    let buffer = ShapedBuffer::new();
    assert_eq!(buffer.segment_count(), 0);
    assert_eq!(buffer.text(), "");
    assert_eq!(buffer.glyphs().len(), 0);
    assert!(buffer.segment(0).is_none());
    assert!(buffer.descriptor(0).is_none());
}

#[test]
fn append_records_segments_and_glyphs() {
    let mut buffer = ShapedBuffer::new();
    let breaks = vec![LineBreak { index: 3, hard: false }, LineBreak { index: 5, hard: true }];
    let runs = vec![run_for("ab ", 640), run_for("cd", 640)];
    buffer.append("ab cd", &breaks, &runs);

    assert_eq!(buffer.text(), "ab cd");
    assert_eq!(buffer.segment_count(), 2);
    assert_eq!(buffer.glyphs().len(), 5);
    assert_eq!(
        buffer.descriptor(0),
        Some(SegmentDescriptor {
            text_start: 0,
            text_end: 3,
            glyph_start: 0,
            glyph_end: 3,
            advance: 30,
            hard_break: false,
        })
    );
    assert_eq!(
        buffer.descriptor(1),
        Some(SegmentDescriptor {
            text_start: 3,
            text_end: 5,
            glyph_start: 3,
            glyph_end: 5,
            advance: 20,
            hard_break: true,
        })
    );
    assert_eq!(
        buffer.glyphs()[4],
        ShapedGlyph {
            glyph_index: b'd' as u32,
            advance: Vector { x: 10, y: 0 },
            pos: Point { x: 10, y: 0 },
            str_index: 4,
            word_str_index: 1,
        }
    );
}

#[test]
fn second_call_is_offset_by_the_first() {
    let mut buffer = ShapedBuffer::new();
    buffer.append("ab ", &[LineBreak { index: 3, hard: true }], &[run_for("ab ", 64)]);
    buffer.append("cd", &[LineBreak { index: 2, hard: true }], &[run_for("cd", 64)]);

    assert_eq!(buffer.text(), "ab cd");
    let second = buffer.descriptor(1).unwrap();
    assert_eq!((second.text_start, second.text_end), (3, 5));
    assert_eq!((second.glyph_start, second.glyph_end), (3, 5));
    let glyph = buffer.glyphs()[3];
    assert_eq!(glyph.str_index, 3);
    assert_eq!(glyph.word_str_index, 0);
    assert_eq!(glyph.pos, Point { x: 0, y: 0 });
}

#[test]
fn append_is_associative_over_the_seam() {
    let first = "Hello ";
    let second = "wide world";
    let breaks_a = vec![LineBreak { index: 6, hard: false }];
    let breaks_b = vec![LineBreak { index: 5, hard: false }, LineBreak { index: 10, hard: true }];
    let runs_a = vec![run_for("Hello ", 100)];
    let runs_b = vec![run_for("wide ", 100), run_for("world", 100)];

    let mut twice = ShapedBuffer::new();
    twice.append(first, &breaks_a, &runs_a);
    twice.append(second, &breaks_b, &runs_b);

    let joint_breaks = vec![
        LineBreak { index: 6, hard: false },
        LineBreak { index: 11, hard: false },
        LineBreak { index: 16, hard: true },
    ];
    let joint_runs = vec![run_for("Hello ", 100), run_for("wide ", 100), run_for("world", 100)];
    let mut once = ShapedBuffer::new();
    once.append("Hello wide world", &joint_breaks, &joint_runs);

    assert_eq!(twice.text(), once.text());
    assert_eq!(twice.glyphs(), once.glyphs());
    assert_eq!(descriptors(&twice), descriptors(&once));
    // The seam is a segment boundary in both.
    assert_eq!(twice.descriptor(0).unwrap().text_end, 6);
    assert_eq!(twice.descriptor(1).unwrap().text_start, 6);
}

#[test]
fn every_descriptor_slices_text_and_glyphs() {
    let text = "Γειά σου Κόσμε!";
    let breaks = vec![
        LineBreak { index: 9, hard: false },
        LineBreak { index: 16, hard: false },
        LineBreak { index: 27, hard: true },
    ];
    let parts = ["Γειά ", "σου ", "Κόσμε!"];
    let runs: Vec<GlyphRun> = parts
        .iter()
        .map(|part| {
            let mut positions = Vec::new();
            let mut infos = Vec::new();
            for (i, c) in part.char_indices() {
                positions.push(GlyphPosition {
                    x_advance: 600,
                    y_advance: 0,
                    x_offset: 0,
                    y_offset: 0,
                });
                infos.push(GlyphInfo { codepoint: c as u32, cluster: i as u32 });
            }
            GlyphRun { positions, infos }
        })
        .collect();
    let mut buffer = ShapedBuffer::new();
    buffer.append("x\n", &[LineBreak { index: 2, hard: true }], &[run_for("x\n", 64)]);
    buffer.append(text, &breaks, &runs);

    assert_eq!(buffer.segment_count(), 4);
    for k in 0..3 {
        let d = buffer.descriptor(k + 1).unwrap();
        let segment = buffer.segment(k + 1).unwrap();
        assert_eq!(segment.text, parts[k]);
        assert_eq!(segment.text, &buffer.text()[d.text_start..d.text_end]);
        assert_eq!(segment.shaped_glyphs, &buffer.glyphs()[d.glyph_start..d.glyph_end]);
        assert_eq!(d.glyph_end - d.glyph_start, runs[k].positions.len());
        assert_eq!(segment.advance, d.advance);
        assert_eq!(segment.hard_break, d.hard_break);
        assert_eq!((segment.text_start, segment.text_end), (d.text_start, d.text_end));
    }
    assert_eq!(buffer.segment(1).unwrap().shaped_glyphs.len(), 5);
    assert_eq!(buffer.segment(1).unwrap().shaped_glyphs[1].str_index, 2 + 2);
    assert_eq!(buffer.segment(3).unwrap().advance, 6 * 9);
    assert!(buffer.segment(4).is_none());
}

#[test]
fn clear_resets_exactly() {
    let breaks = vec![LineBreak { index: 3, hard: false }, LineBreak { index: 5, hard: true }];
    let runs = vec![run_for("ab ", 640), run_for("cd", 640)];

    let mut fresh = ShapedBuffer::new();
    fresh.append("ab cd", &breaks, &runs);

    let mut reused = ShapedBuffer::new();
    reused.append("zzzz", &[LineBreak { index: 4, hard: true }], &[run_for("zzzz", 99)]);
    reused.clear();
    assert_eq!(reused.segment_count(), 0);
    assert_eq!(reused.text(), "");
    assert_eq!(reused.glyphs().len(), 0);
    reused.append("ab cd", &breaks, &runs);

    assert_eq!(reused.text(), fresh.text());
    assert_eq!(reused.glyphs(), fresh.glyphs());
    assert_eq!(descriptors(&reused), descriptors(&fresh));
}

#[test]
fn text_without_breaks_adds_no_segment() {
    let mut buffer = ShapedBuffer::new();
    buffer.append("", &[], &[]);
    assert_eq!(buffer.segment_count(), 0);
    assert_eq!(buffer.text(), "");
    buffer.append("tail", &[], &[]);
    assert_eq!(buffer.text(), "tail");
    assert_eq!(buffer.segment_count(), 0);
    buffer.append("ab", &[LineBreak { index: 2, hard: true }], &[run_for("ab", 64)]);
    assert_eq!(buffer.segment(0).unwrap().text, "ab");
    assert_eq!(buffer.descriptor(0).unwrap().text_start, 4);
}

#[test]
fn empty_segment_has_empty_slices() {
    let mut buffer = ShapedBuffer::new();
    let breaks = vec![LineBreak { index: 0, hard: false }, LineBreak { index: 1, hard: true }];
    let runs = vec![run_for("", 64), run_for("a", 64)];
    buffer.append("a", &breaks, &runs);
    let first = buffer.segment(0).unwrap();
    assert_eq!(first.text, "");
    assert_eq!(first.shaped_glyphs.len(), 0);
    assert_eq!(first.advance, 0);
    assert_eq!(buffer.segment(1).unwrap().text, "a");
}
