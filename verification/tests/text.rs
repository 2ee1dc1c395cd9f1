use point_cloud_viewer::gl_wrappers::buffer::{Binding, CopyCommand, FenceState};
use point_cloud_viewer::rendering::text_rendering::{
    GlyphUse, SentenceDraw, TextRendering, GLYPHS, MAX_CHARACTERS,
};

fn font() -> Vec<bool> {
    vec![true; GLYPHS]
}

fn drawn(text: &str) -> Vec<GlyphUse> {
    text.chars().map(|c| GlyphUse { glyph: c as usize - 30, drawn: c != ' ' }).collect()
}

#[test]
fn text_is_written_through_rings_of_three() {
    let (text, indices) = TextRendering::new(font());
    assert_eq!(text.plane_buffer().number_buffers(), 3);
    assert_eq!(text.tex_coords_buffer().number_buffers(), 3);
    assert_eq!(text.indice_buffer().number_buffers(), 1);
    assert_eq!(text.plane_buffer().size_buffer_bytes(), 32_000);
    assert_eq!(text.tex_coords_buffer().size_buffer_bytes(), 32_000);
    assert_eq!(text.indice_buffer().size_buffer_bytes(), 24);
    assert_eq!(
        indices.copy,
        CopyCommand { region: 0, element_offset: 0, element_count: 6, element_size: 4 }
    );
    assert_eq!(indices.binding, Binding::ElementArray { region: 0 });
    assert_eq!(indices.timeout, 5_000_000);
}

#[test]
fn characters_map_to_glyphs() {
    let (mut text, _) = TextRendering::new(font());
    let uses = text.buffer_text_for_rendering("NP: 1.5\n\u{0}é~", 30);
    assert_eq!(
        uses,
        vec![
            GlyphUse { glyph: 48, drawn: true },
            GlyphUse { glyph: 50, drawn: true },
            GlyphUse { glyph: 28, drawn: true },
            GlyphUse { glyph: 2, drawn: false },
            GlyphUse { glyph: 19, drawn: true },
            GlyphUse { glyph: 16, drawn: true },
            GlyphUse { glyph: 23, drawn: true },
            GlyphUse { glyph: 1, drawn: true },
            GlyphUse { glyph: 0, drawn: true },
            GlyphUse { glyph: 96, drawn: true },
        ]
    );
}

#[test]
fn glyphs_that_cannot_be_used_are_passed_over() {
    let mut usable = font();
    usable['b' as usize - 30] = false;
    let (mut text, _) = TextRendering::new(usable);
    assert_eq!(text.buffer_text_for_rendering("abc", 30), vec![drawn("a")[0], drawn("c")[0]]);
    assert_eq!(text.buffer_text_for_rendering("abcd", 1), vec![drawn("a")[0]]);
    assert_eq!(text.buffer_text_for_rendering("aébcd", 2), vec![drawn("a")[0], drawn("c")[0]]);
}

#[test]
fn a_line_ends_after_its_longest_length() {
    let (mut text, _) = TextRendering::new(font());
    assert_eq!(text.buffer_text_for_rendering("abcdef", 2), drawn("abc"));
    assert_eq!(text.buffer_text_for_rendering("a b c", 2), drawn("a b"));
    assert_eq!(text.buffer_text_for_rendering("abc", 0), drawn("a"));
    assert_eq!(text.buffer_text_for_rendering("", 0), Vec::new());
}

#[test]
fn a_frame_draws_its_lines_and_starts_anew() {
    let (mut text, _) = TextRendering::new(font());
    text.buffer_text_for_rendering("ab cd", 30);
    text.buffer_text_for_rendering("", 30);
    text.buffer_text_for_rendering("  ", 30);
    text.buffer_text_for_rendering("xyz", 30);
    let frame = text.render_buffered_text();
    assert_eq!(
        frame.sentences,
        vec![
            SentenceDraw { first_character: 0, characters: 4 },
            SentenceDraw { first_character: 4, characters: 0 },
            SentenceDraw { first_character: 4, characters: 0 },
            SentenceDraw { first_character: 4, characters: 3 },
        ]
    );
    assert_eq!(
        frame.plane.copy,
        CopyCommand { region: 1, element_offset: 0, element_count: 28, element_size: 8 }
    );
    assert_eq!(
        frame.tex_coords.copy,
        CopyCommand { region: 1, element_offset: 0, element_count: 7, element_size: 32 }
    );
    assert_eq!(
        frame.plane.binding,
        Binding::VertexBuffer { binding_point: 0, region: 1, offset: 0, stride: 8 }
    );
    assert_eq!(
        frame.tex_coords.binding,
        Binding::VertexBuffer { binding_point: 1, region: 1, offset: 0, stride: 8 }
    );
    assert_eq!((frame.plane_fence, frame.tex_coords_fence), (1, 1));
    assert_eq!(text.plane_buffer().fence_state(1), Some(FenceState::Pending));

    let empty = text.render_buffered_text();
    assert!(empty.sentences.is_empty());
    assert_eq!(empty.plane.copy.element_count, 0);
    assert_eq!(empty.plane.copy.region, 2);
}

#[test]
fn three_frames_come_back_to_the_first_region() {
    let (mut text, _) = TextRendering::new(font());
    let mut regions = Vec::new();
    for _ in 0..7 {
        text.buffer_text_for_rendering("frame", 30);
        let frame = text.render_buffered_text();
        assert_eq!(frame.plane.copy.region, frame.tex_coords.copy.region);
        assert_eq!(frame.plane_fence, frame.plane.copy.region);
        regions.push(frame.plane.copy.region);
    }
    assert_eq!(regions, vec![1, 2, 0, 1, 2, 0, 1]);
    for region in 0..3 {
        assert_eq!(text.plane_buffer().fence_state(region), Some(FenceState::Pending));
    }
}

#[test]
fn a_frame_holds_no_more_quads_than_its_rings() {
    let (mut text, _) = TextRendering::new(font());
    let long = "x".repeat(600);
    assert_eq!(text.buffer_text_for_rendering(&long, 5000).len(), 600);
    let uses = text.buffer_text_for_rendering(&long, 5000);
    assert_eq!(uses.len(), 400);
    assert!(text.buffer_text_for_rendering("more", 30).is_empty());
    assert_eq!(text.buffer_text_for_rendering("  x ", 30), drawn("  "));
    let frame = text.render_buffered_text();
    assert_eq!(frame.tex_coords.copy.element_count, MAX_CHARACTERS);
    assert_eq!(frame.plane.copy.element_count, 4 * MAX_CHARACTERS);
    assert_eq!(
        frame.sentences,
        vec![
            SentenceDraw { first_character: 0, characters: 600 },
            SentenceDraw { first_character: 600, characters: 400 },
            SentenceDraw { first_character: 1000, characters: 0 },
            SentenceDraw { first_character: 1000, characters: 0 },
        ]
    );
    assert_eq!(text.buffer_text_for_rendering("again", 30), drawn("again"));
}
