//! The text on the window: which characters are drawn, and how their
//! quads reach the device.
//!
//! Every frame the quads of all characters are written anew, through two
//! rings of three regions each, so that the text of one frame can be
//! written while the device still draws that of the frames before. Where
//! a character stands is arithmetic on the metrics of its glyph and is
//! left to the caller.

use vstd::prelude::*;
use vstd::string::StrSliceExecFns;
use crate::geometry::geometry_trait::{INDEX_BYTES, VEC2_BYTES};
use crate::gl_wrappers::buffer::{Buffer, BufferType, BufferView, CopyCommand, WriteCommand};
use crate::gl_wrappers::vao::{attribute_bytes, AttributeFormat, DataType, VAOView, VAO};
use crate::rendering::scene_renderer::FENCE_TIMEOUT;

verus! {

/// Characters that can be drawn in one frame.
pub const MAX_CHARACTERS: usize = 1000;

/// Corners of the quad of a character.
pub const QUAD_CORNERS: usize = 4;

/// Bytes of the texture coordinates of the four corners of a quad.
pub const QUAD_BYTES: usize = 32;

/// Indices of the two triangles of a quad.
pub const QUAD_INDICES: usize = 6;

/// Glyphs of a font that text can use: the first stands for the character
/// 0, the second for the line feed, and the one at place `c - 30` for any
/// other character `c` below 128.
pub const GLYPHS: usize = 98;

/// Regions of the rings that the quads are written through.
pub const TEXT_REGIONS: usize = 3;

/// One character of a line of text that has a glyph.
#[derive(Clone, Copy, Debug, PartialEq, Eq, Structural)]
pub struct GlyphUse {
    /// The place of the glyph in the font.
    pub glyph: usize,
    /// Whether the character gets a quad. A space moves on without one.
    pub drawn: bool,
}

/// The characters of one line of text, by their place among the
/// characters of the frame.
#[derive(Clone, Copy, Debug, PartialEq, Eq, Structural)]
pub struct SentenceDraw {
    pub first_character: usize,
    pub characters: usize,
}

/// What the text of one frame does with its rings, in this order: the
/// corners and the texture coordinates of all quads are written, the
/// lines are drawn, and both rings get a fresh fence.
pub struct TextFrame {
    pub plane: WriteCommand,
    pub tex_coords: WriteCommand,
    pub sentences: Vec<SentenceDraw>,
    /// The region of the corners whose fence is replaced.
    pub plane_fence: usize,
    /// The region of the texture coordinates whose fence is replaced.
    pub tex_coords_fence: usize,
}

/// The place in the font of the glyph of a character below 128.
pub open spec fn glyph_of(c: char) -> int {
    if c as u32 == 0 {
        0
    } else if c as u32 == 10 {
        1
    } else {
        c as u32 - 30
    }
}

/// Whether a character below 128 has a place in the font: the character 0,
/// the line feed and the characters from 30 on have.
pub open spec fn has_glyph(c: char) -> bool {
    c as u32 == 0 || c as u32 == 10 || 30 <= c as u32
}

/// Whether every character of a text below 128 has a place in the font.
pub open spec fn writable(text: Seq<char>) -> bool {
    forall|k: int|
        0 <= k < text.len() && ((#[trigger] text[k]) as u32) < 128 ==> has_glyph(text[k])
}

/// The characters with a glyph among those of `text` from the `k`-th on,
/// where `index` characters below 128 came before and `count` characters
/// of the frame have a quad.
///
/// Characters from 128 on are passed over. A character whose glyph cannot
/// be used is passed over too, but counts as a character of the line. The
/// line ends once more than `max_num_char` characters of it were looked
/// at, and once the frame has all the quads it can hold.
pub open spec fn glyphs_from(
    usable: Seq<bool>,
    text: Seq<char>,
    k: int,
    index: int,
    count: int,
    max_num_char: int,
) -> Seq<GlyphUse>
    decreases text.len() - k,
{
    if k >= text.len() {
        Seq::empty()
    } else if text[k] as u32 >= 128 {
        glyphs_from(usable, text, k + 1, index, count, max_num_char)
    } else if !usable[glyph_of(text[k])] {
        glyphs_from(usable, text, k + 1, index + 1, count, max_num_char)
    } else if index > max_num_char {
        Seq::empty()
    } else if text[k] == ' ' {
        seq![GlyphUse { glyph: glyph_of(text[k]) as usize, drawn: false }] + glyphs_from(
            usable,
            text,
            k + 1,
            index + 1,
            count,
            max_num_char,
        )
    } else if count >= MAX_CHARACTERS {
        Seq::empty()
    } else if count + 1 >= MAX_CHARACTERS {
        seq![GlyphUse { glyph: glyph_of(text[k]) as usize, drawn: true }]
    } else {
        seq![GlyphUse { glyph: glyph_of(text[k]) as usize, drawn: true }] + glyphs_from(
            usable,
            text,
            k + 1,
            index + 1,
            count + 1,
            max_num_char,
        )
    }
}

/// Number of characters with a quad among the first `k` of some
/// characters with a glyph.
pub open spec fn drawn_before(uses: Seq<GlyphUse>, k: int) -> nat
    decreases k,
{
    if k <= 0 {
        0
    } else {
        drawn_before(uses, k - 1) + if uses[k - 1].drawn {
            1nat
        } else {
            0nat
        }
    }
}

/// The number of characters with a quad among the first `k` depends on
/// those `k` characters only.
proof fn lemma_drawn_before_prefix(first: Seq<GlyphUse>, second: Seq<GlyphUse>, k: int)
    requires
        0 <= k <= first.len(),
        k <= second.len(),
        forall|i: int| 0 <= i < k ==> first[i] == second[i],
    ensures
        drawn_before(first, k) == drawn_before(second, k),
    decreases k,
{
    if k > 0 {
        lemma_drawn_before_prefix(first, second, k - 1);
    }
}

/// One more character with a glyph is one more character with a quad if
/// it is drawn, and none if it is not.
proof fn lemma_drawn_before_push(uses: Seq<GlyphUse>, last: GlyphUse)
    ensures
        drawn_before(uses.push(last), uses.len() as int + 1) == drawn_before(
            uses,
            uses.len() as int,
        )
            + if last.drawn {
            1nat
        } else {
            0nat
        },
{
    lemma_drawn_before_prefix(uses, uses.push(last), uses.len() as int);
}

/// The layout of the vertices of text: the corner of a quad and its texture
/// coordinate, of two floats each.
pub open spec fn text_layout() -> VAOView {
    VAOView {
        formats: seq![
            AttributeFormat {
                index: 0,
                count: 2,
                data_type: DataType::Float,
                normalized: false,
                relative_offset: 0,
            },
            AttributeFormat {
                index: 1,
                count: 2,
                data_type: DataType::Float,
                normalized: false,
                relative_offset: 0,
            },
        ],
        divisors: Seq::empty(),
    }
}

/// The text that is waiting to be drawn.
pub struct TextRendering {
    vao: VAO,
    plane_buffer: Buffer,
    tex_coords_buffer: Buffer,
    indice_buffer: Buffer,
    usable_glyphs: Vec<bool>,
    num_characters: usize,
    sentence_positions: Vec<usize>,
}

/// The mathematical model of the text that is waiting to be drawn.
pub struct TextRenderingView {
    pub vao: VAOView,
    pub plane_buffer: BufferView,
    pub tex_coords_buffer: BufferView,
    pub indice_buffer: BufferView,
    /// For each glyph of the font, by its place, whether it can be used.
    pub usable_glyphs: Seq<bool>,
    /// Number of characters of the frame that have a quad.
    pub num_characters: nat,
    /// For each line of the frame, the number of characters that had a
    /// quad when the line began.
    pub sentence_positions: Seq<usize>,
}

impl TextRenderingView {
    pub open spec fn wf(self) -> bool {
        &&& self.plane_buffer.wf()
        &&& self.tex_coords_buffer.wf()
        &&& self.indice_buffer.wf()
        &&& self.vao == text_layout()
        &&& self.vao.reads(self.plane_buffer)
        &&& self.vao.reads(self.tex_coords_buffer)
        &&& self.plane_buffer.size_bytes == MAX_CHARACTERS * QUAD_BYTES
        &&& self.tex_coords_buffer.size_bytes == MAX_CHARACTERS * QUAD_BYTES
        &&& self.usable_glyphs.len() >= GLYPHS
        &&& self.num_characters <= MAX_CHARACTERS
        &&& forall|i: int|
            0 <= i < self.sentence_positions.len() ==> #[trigger] self.sentence_positions[i]
                <= self.num_characters
        &&& forall|i: int, j: int|
            0 <= i <= j < self.sentence_positions.len() ==> #[trigger] self.sentence_positions[i]
                <= #[trigger] self.sentence_positions[j]
    }

    /// The characters of the `i`-th line: from where it began up to where
    /// the next line began, or up to the last character of the frame.
    pub open spec fn sentence(self, i: int) -> SentenceDraw {
        SentenceDraw {
            first_character: self.sentence_positions[i],
            characters: (if i + 1 < self.sentence_positions.len() {
                self.sentence_positions[i + 1] - self.sentence_positions[i]
            } else {
                self.num_characters - self.sentence_positions[i]
            }) as usize,
        }
    }
}

impl View for TextRendering {
    type V = TextRenderingView;

    closed spec fn view(&self) -> TextRenderingView {
        TextRenderingView {
            vao: self.vao@,
            plane_buffer: self.plane_buffer@,
            tex_coords_buffer: self.tex_coords_buffer@,
            indice_buffer: self.indice_buffer@,
            usable_glyphs: self.usable_glyphs@,
            num_characters: self.num_characters as nat,
            sentence_positions: self.sentence_positions@,
        }
    }
}

impl TextRendering {
    pub open spec fn wf(&self) -> bool {
        self@.wf()
    }

    /// Text for a font whose glyphs can be used as `usable_glyphs` says,
    /// with no line waiting, and the write of the indices of a quad.
    pub fn new(usable_glyphs: Vec<bool>) -> (made: (TextRendering, WriteCommand))
        requires
            usable_glyphs@.len() >= GLYPHS,
        ensures
            made.0.wf(),
            made.0@ == (TextRenderingView {
                vao: text_layout(),
                plane_buffer: BufferView::initial(
                    MAX_CHARACTERS * QUAD_BYTES,
                    TEXT_REGIONS as nat,
                    BufferType::Array(0, 8),
                ),
                tex_coords_buffer: BufferView::initial(
                    MAX_CHARACTERS * QUAD_BYTES,
                    TEXT_REGIONS as nat,
                    BufferType::Array(1, 8),
                ),
                indice_buffer: BufferView::initial(
                    QUAD_INDICES * INDEX_BYTES,
                    1,
                    BufferType::Indice,
                ).after_write(),
                usable_glyphs: usable_glyphs@,
                num_characters: 0,
                sentence_positions: Seq::empty(),
            }),
            made.1.timeout == FENCE_TIMEOUT,
            made.1.copy == (CopyCommand {
                region: 0,
                element_offset: 0,
                element_count: QUAD_INDICES,
                element_size: INDEX_BYTES,
            }),
            made.1.binding == made.0@.indice_buffer.binding_of(0),
            made.0@.indice_buffer.holds(made.1.copy),
    {
        let mut vao = VAO::new();
        vao.specify_index_layout(0, 2, DataType::Float, false, 0);
        vao.specify_index_layout(1, 2, DataType::Float, false, 0);
        proof {
            assert(vao@.formats =~= text_layout().formats);
            reveal_with_fuel(attribute_bytes, 3);
        }
        let plane_buffer = Buffer::new(
            (MAX_CHARACTERS * QUAD_BYTES) as isize,
            TEXT_REGIONS,
            BufferType::Array(0, 8),
        ).0;
        let tex_coords_buffer = Buffer::new(
            (MAX_CHARACTERS * QUAD_BYTES) as isize,
            TEXT_REGIONS,
            BufferType::Array(1, 8),
        ).0;
        let mut indice_buffer = Buffer::new(
            (QUAD_INDICES * INDEX_BYTES) as isize,
            1,
            BufferType::Indice,
        ).0;
        let indices = indice_buffer.write_data(QUAD_INDICES, INDEX_BYTES, FENCE_TIMEOUT);
        (
            TextRendering {
                vao,
                plane_buffer,
                tex_coords_buffer,
                indice_buffer,
                usable_glyphs,
                num_characters: 0,
                sentence_positions: Vec::new(),
            },
            indices,
        )
    }

    /// Begins a new line of the frame with the given text. Returns the
    /// characters of the line that have a glyph, in their order.
    pub fn buffer_text_for_rendering(&mut self, text: &str, max_num_char: usize) -> (uses: Vec<
        GlyphUse,
    >)
        requires
            old(self).wf(),
            writable(text@),
        ensures
            final(self).wf(),
            uses@ == glyphs_from(
                old(self)@.usable_glyphs,
                text@,
                0,
                0,
                old(self)@.num_characters as int,
                max_num_char as int,
            ),
            final(self)@ == (TextRenderingView {
                num_characters: old(self)@.num_characters + drawn_before(uses@, uses@.len() as int),
                sentence_positions: old(self)@.sentence_positions.push(
                    old(self)@.num_characters as usize,
                ),
                ..old(self)@
            }),
    {
        let ghost before = self@;
        let ghost usable = self@.usable_glyphs;
        self.sentence_positions.push(self.num_characters);
        let mut uses: Vec<GlyphUse> = Vec::new();
        let length: usize = text.unicode_len();
        let mut index: usize = 0;
        let mut k: usize = 0;
        let mut done: bool = false;
        while k < length && !done
            invariant
                k <= length,
                length == text@.len(),
                index <= k,
                writable(text@),
                before.wf(),
                usable == before.usable_glyphs,
                self@ == (TextRenderingView {
                    num_characters: before.num_characters + drawn_before(uses@, uses@.len() as int),
                    sentence_positions: before.sentence_positions.push(
                        before.num_characters as usize,
                    ),
                    ..before
                }),
                self@.num_characters <= MAX_CHARACTERS,
                !done ==> uses@ + glyphs_from(
                    usable,
                    text@,
                    k as int,
                    index as int,
                    self@.num_characters as int,
                    max_num_char as int,
                ) == glyphs_from(
                    usable,
                    text@,
                    0,
                    0,
                    before.num_characters as int,
                    max_num_char as int,
                ),
                done ==> uses@ == glyphs_from(
                    usable,
                    text@,
                    0,
                    0,
                    before.num_characters as int,
                    max_num_char as int,
                ),
            decreases (length - k) + (if done {
                0int
            } else {
                1int
            }),
        {
            let c: char = text.get_char(k);
            let code: u32 = c as u32;
            if code >= 128 {
                k = k + 1;
            } else {
                let glyph: usize = if code == 0 {
                    0
                } else if code == 10 {
                    1
                } else {
                    (code - 30) as usize
                };
                assert(has_glyph(text@[k as int]));
                if !self.usable_glyphs[glyph] {
                    index = index + 1;
                    k = k + 1;
                } else if index > max_num_char {
                    assert(uses@ + Seq::<GlyphUse>::empty() =~= uses@);
                    done = true;
                } else if code == 32 {
                    let ghost earlier = uses@;
                    uses.push(GlyphUse { glyph, drawn: false });
                    proof {
                        lemma_drawn_before_push(earlier, GlyphUse { glyph, drawn: false });
                        assert(earlier + (seq![GlyphUse { glyph, drawn: false }] + glyphs_from(
                            usable,
                            text@,
                            k + 1,
                            index + 1,
                            self@.num_characters as int,
                            max_num_char as int,
                        )) =~= uses@ + glyphs_from(
                            usable,
                            text@,
                            k + 1,
                            index + 1,
                            self@.num_characters as int,
                            max_num_char as int,
                        ));
                        assert(uses@.drop_last() =~= earlier);
                    }
                    index = index + 1;
                    k = k + 1;
                } else if self.num_characters >= MAX_CHARACTERS {
                    assert(uses@ + Seq::<GlyphUse>::empty() =~= uses@);
                    done = true;
                } else {
                    let ghost earlier = uses@;
                    let ghost count = self@.num_characters as int;
                    uses.push(GlyphUse { glyph, drawn: true });
                    self.num_characters = self.num_characters + 1;
                    proof {
                        lemma_drawn_before_push(earlier, GlyphUse { glyph, drawn: true });
                        assert(uses@.drop_last() =~= earlier);
                        if count + 1 >= MAX_CHARACTERS {
                            assert(earlier + seq![GlyphUse { glyph, drawn: true }] =~= uses@);
                        } else {
                            assert(earlier + (seq![GlyphUse { glyph, drawn: true }] + glyphs_from(
                                usable,
                                text@,
                                k + 1,
                                index + 1,
                                count + 1,
                                max_num_char as int,
                            )) =~= uses@ + glyphs_from(
                                usable,
                                text@,
                                k + 1,
                                index + 1,
                                count + 1,
                                max_num_char as int,
                            ));
                        }
                    }
                    if self.num_characters >= MAX_CHARACTERS {
                        done = true;
                    } else {
                        index = index + 1;
                        k = k + 1;
                    }
                }
            }
        }
        proof {
            if !done {
                assert(uses@ + Seq::<GlyphUse>::empty() =~= uses@);
            }
        }
        uses
    }

    /// Ends the frame: what is done with the rings to draw the lines that
    /// are waiting. Afterwards no line is waiting.
    pub fn render_buffered_text(&mut self) -> (frame: TextFrame)
        requires
            old(self).wf(),
        ensures
            final(self).wf(),
            final(self)@ == (TextRenderingView {
                plane_buffer: old(self)@.plane_buffer.after_write().after_fence_update(),
                tex_coords_buffer: old(self)@.tex_coords_buffer.after_write().after_fence_update(),
                num_characters: 0,
                sentence_positions: Seq::empty(),
                ..old(self)@
            }),
            frame.plane == (WriteCommand {
                timeout: FENCE_TIMEOUT,
                copy: CopyCommand {
                    region: old(self)@.plane_buffer.next_index() as usize,
                    element_offset: 0,
                    element_count: (old(self)@.num_characters * QUAD_CORNERS) as usize,
                    element_size: VEC2_BYTES,
                },
                binding: old(self)@.plane_buffer.binding_of(old(self)@.plane_buffer.next_index()),
            }),
            frame.tex_coords == (WriteCommand {
                timeout: FENCE_TIMEOUT,
                copy: CopyCommand {
                    region: old(self)@.tex_coords_buffer.next_index() as usize,
                    element_offset: 0,
                    element_count: old(self)@.num_characters as usize,
                    element_size: QUAD_BYTES,
                },
                binding: old(self)@.tex_coords_buffer.binding_of(
                    old(self)@.tex_coords_buffer.next_index(),
                ),
            }),
            frame.sentences@ == Seq::new(
                old(self)@.sentence_positions.len(),
                |i: int| old(self)@.sentence(i),
            ),
            frame.plane_fence == old(self)@.plane_buffer.next_index(),
            frame.tex_coords_fence == old(self)@.tex_coords_buffer.next_index(),
            old(self)@.plane_buffer.holds(frame.plane.copy),
            old(self)@.tex_coords_buffer.holds(frame.tex_coords.copy),
    {
        let ghost before = self@;
        let plane = self.plane_buffer.write_data(
            self.num_characters * QUAD_CORNERS,
            VEC2_BYTES,
            FENCE_TIMEOUT,
        );
        let tex_coords = self.tex_coords_buffer.write_data(
            self.num_characters,
            QUAD_BYTES,
            FENCE_TIMEOUT,
        );
        let mut sentences: Vec<SentenceDraw> = Vec::new();
        let mut x: usize = 0;
        while x < self.sentence_positions.len()
            invariant
                x <= self.sentence_positions@.len(),
                before.wf(),
                self.sentence_positions@ == before.sentence_positions,
                self.num_characters == before.num_characters,
                sentences@ =~= Seq::new(x as nat, |i: int| before.sentence(i)),
            decreases self.sentence_positions@.len() - x,
        {
            let first_character: usize = self.sentence_positions[x];
            let next: usize = if x + 1 < self.sentence_positions.len() {
                self.sentence_positions[x + 1]
            } else {
                self.num_characters
            };
            assert(first_character <= next) by {
                if x + 1 < before.sentence_positions.len() {
                    assert(before.sentence_positions[x as int] <= before.sentence_positions[x + 1]);
                }
            }
            sentences.push(SentenceDraw { first_character, characters: next - first_character });
            x = x + 1;
        }
        let plane_fence: usize = self.plane_buffer.update_fence();
        let tex_coords_fence: usize = self.tex_coords_buffer.update_fence();
        self.num_characters = 0;
        self.sentence_positions.clear();
        TextFrame { plane, tex_coords, sentences, plane_fence, tex_coords_fence }
    }

    /// The layout of the vertices of text.
    pub fn vao(&self) -> (vao: &VAO)
        ensures
            vao@ == self@.vao,
    {
        &self.vao
    }

    /// The ring of the corners of the quads.
    pub fn plane_buffer(&self) -> (buffer: &Buffer)
        ensures
            buffer@ == self@.plane_buffer,
    {
        &self.plane_buffer
    }

    /// The ring of the texture coordinates of the quads.
    pub fn tex_coords_buffer(&self) -> (buffer: &Buffer)
        ensures
            buffer@ == self@.tex_coords_buffer,
    {
        &self.tex_coords_buffer
    }

    /// The ring of the indices of a quad.
    pub fn indice_buffer(&self) -> (buffer: &Buffer)
        ensures
            buffer@ == self@.indice_buffer,
    {
        &self.indice_buffer
    }
}

/// Three frames of text bring each of its rings back to the region that
/// it started from, and every frame writes to another region than the
/// frame before it.
pub proof fn lemma_text_rings_come_round(ring: BufferView)
    requires
        ring.wf(),
        ring.number_buffers() == TEXT_REGIONS,
    ensures
        ring.after_write().current != ring.current,
        ring.after_write().after_fence_update().after_write().current != ring.after_write().current,
        ring.after_write().after_fence_update().after_write().after_fence_update().after_write().current
            == ring.current,
{
    let first = ring.after_write().after_fence_update();
    let second = first.after_write().after_fence_update();
    assert(ring.fences.len() == 3);
    assert(first.fences.len() == 3);
    assert(second.fences.len() == 3);
    assert(1int % 3 == 1 && 2int % 3 == 2 && 3int % 3 == 0);
    assert(first.current == (ring.current + 1) % 3);
    assert(second.current == (first.current + 1) % 3);
    assert(second.after_write().current == (second.current + 1) % 3);
}

} // verus!
