//! Packing the glyphs of a text into an atlas, line by line.
//!
//! The packer is a line flow, not a bin packer: glyphs go from left to right
//! with a fixed padding between them, and a line break in the text starts a
//! new row below the tallest glyph of the row. Every character of the text
//! that is not a line break gets a place of its own; repeated characters are
//! not shared. Nothing is checked against the size of the canvas.

use vstd::prelude::*;
use vstd::std_specs::iter::IteratorSpec;
use crate::error::RasterError;
use crate::font::{CharTag, CommonTag, FontFile, InfoTag, PageTag};
use crate::glyph::{may_give, LineMetrics, RenderedGlyph, Renderer};
use crate::render_settings::RenderSettings;

verus! {

/// What the packer needs to know of a rasterized glyph.
#[derive(Clone, Copy, Debug, PartialEq, Eq, Structural)]
pub struct Measure {
    pub codepoint: usize,
    pub width: u32,
    pub height: u32,
    pub xoffset: i32,
    pub yoffset: i32,
    pub xadvance: i32,
}

/// One character of the text as the packer sees it.
#[derive(Clone, Copy, Debug, PartialEq, Eq, Structural)]
pub enum Cell {
    /// A line break: ends the row, places nothing.
    LineBreak,
    /// Any other character, with the measure of its glyph.
    Glyph(Measure),
}

/// Where a glyph lies in the atlas, with its metrics.
#[derive(Clone, Copy, Debug, PartialEq, Eq, Structural)]
pub struct GlyphInfo {
    pub codepoint: usize,
    pub x: u32,
    pub y: u32,
    pub width: u32,
    pub height: u32,
    pub xoffset: i32,
    pub yoffset: i32,
    pub xadvance: i32,
}

/// The place where the next glyph goes, and the height of the tallest glyph
/// of the current row.
pub struct Cursor {
    pub left: int,
    pub top: int,
    pub max_row_height: int,
}

impl Cursor {
    /// Both coordinates can be the corner of a glyph.
    pub open spec fn representable(self) -> bool {
        0 <= self.left <= u32::MAX && 0 <= self.top <= u32::MAX
    }
}

/// The cursor before the first character: one padding from the left and from
/// the top.
pub open spec fn cursor_start(padding: int) -> Cursor {
    Cursor { left: padding, top: padding, max_row_height: 0 }
}

/// The cursor after one more character.
pub open spec fn cursor_step(cursor: Cursor, cell: Cell, padding: int) -> Cursor {
    match cell {
        Cell::LineBreak => Cursor {
            left: padding,
            top: cursor.top + cursor.max_row_height + padding,
            max_row_height: 0,
        },
        Cell::Glyph(m) => Cursor {
            left: cursor.left + m.width + padding,
            top: cursor.top,
            max_row_height: if cursor.max_row_height >= m.height {
                cursor.max_row_height
            } else {
                m.height as int
            },
        },
    }
}

/// The cursor after all of `cells`.
pub open spec fn cursor_after(cells: Seq<Cell>, padding: int) -> Cursor
    decreases cells.len(),
{
    if cells.len() == 0 {
        cursor_start(padding)
    } else {
        cursor_step(cursor_after(cells.drop_last(), padding), cells.last(), padding)
    }
}

/// The glyph of measure `m`, placed at the cursor.
pub open spec fn place_at(cursor: Cursor, m: Measure) -> GlyphInfo {
    GlyphInfo {
        codepoint: m.codepoint,
        x: cursor.left as u32,
        y: cursor.top as u32,
        width: m.width,
        height: m.height,
        xoffset: m.xoffset,
        yoffset: m.yoffset,
        xadvance: m.xadvance,
    }
}

/// The placements of `cells`: one for each glyph, in the order of the text.
pub open spec fn placed(cells: Seq<Cell>, padding: int) -> Seq<GlyphInfo>
    decreases cells.len(),
{
    if cells.len() == 0 {
        Seq::empty()
    } else {
        match cells.last() {
            Cell::LineBreak => placed(cells.drop_last(), padding),
            Cell::Glyph(m) => placed(cells.drop_last(), padding).push(
                place_at(cursor_after(cells.drop_last(), padding), m),
            ),
        }
    }
}

/// The cursor stays representable from the first character to the last.
pub open spec fn fits(cells: Seq<Cell>, padding: int) -> bool {
    forall|k: int| 0 <= k <= cells.len() ==> (#[trigger] cursor_after(cells.take(k), padding)).representable()
}

/// The characters of `text`, in order.
pub fn chars_of(text: &str) -> (out: Vec<char>)
    ensures
        out@ == text@,
{
    broadcast use {vstd::string::axiom_spec_iter, vstd::string::next_postcondition};

    let mut it = text.chars();
    let mut out: Vec<char> = Vec::new();
    assert(out@ + it.remaining() =~= text@);
    loop
        invariant
            out@ + it.remaining() == text@,
            it.obeys_prophetic_iter_laws(),
            it.decrease() is Some,
        ensures
            out@ == text@,
        decreases it.decrease().unwrap(),
    {
        match it.next() {
            Some(c) => {
                out.push(c);
                assert(out@ + it.remaining() =~= text@);
            },
            None => {
                assert(out@ =~= text@);
                break ;
            },
        }
    }
    out
}

/// Lays out measured glyphs and line breaks.
///
/// The first glyph goes to `(padding, padding)`. A glyph moves the cursor to
/// the right by its width and the padding; a line break moves it down by the
/// height of the tallest glyph of the row and the padding, and back to the
/// left. The layout fails with `CompositeFailed` exactly when the cursor
/// leaves the range of the coordinates.
pub fn layout(cells: &Vec<Cell>, padding: u32) -> (r: Result<Vec<GlyphInfo>, RasterError>)
    ensures
        match r {
            Ok(info) => fits(cells@, padding as int) && info@ == placed(cells@, padding as int),
            Err(e) => e == RasterError::CompositeFailed && !fits(cells@, padding as int),
        },
{
    let mut left: u32 = padding;
    let mut top: u32 = padding;
    let mut max_row_height: u32 = 0;
    let mut info: Vec<GlyphInfo> = Vec::new();
    let mut i: usize = 0;
    assert(cells@.take(0) =~= Seq::<Cell>::empty());
    while i < cells.len()
        invariant
            i <= cells.len(),
            cursor_after(cells@.take(i as int), padding as int) == (Cursor {
                left: left as int,
                top: top as int,
                max_row_height: max_row_height as int,
            }),
            info@ == placed(cells@.take(i as int), padding as int),
            forall|k: int| 0 <= k <= i ==> (#[trigger] cursor_after(cells@.take(k), padding as int)).representable(),
        decreases cells.len() - i,
    {
        let ghost before = cells@.take(i as int);
        let ghost after = cells@.take(i + 1);
        assert(after.drop_last() =~= before);
        assert(after.last() == cells@[i as int]);
        match cells[i] {
            Cell::LineBreak => {
                let next: u64 = top as u64 + max_row_height as u64 + padding as u64;
                if next > u32::MAX as u64 {
                    assert(!cursor_after(after, padding as int).representable());
                    return Err(RasterError::CompositeFailed);
                }
                top = next as u32;
                left = padding;
                max_row_height = 0;
            },
            Cell::Glyph(m) => {
                info.push(
                    GlyphInfo {
                        codepoint: m.codepoint,
                        x: left,
                        y: top,
                        width: m.width,
                        height: m.height,
                        xoffset: m.xoffset,
                        yoffset: m.yoffset,
                        xadvance: m.xadvance,
                    },
                );
                let next: u64 = left as u64 + m.width as u64 + padding as u64;
                if next > u32::MAX as u64 {
                    assert(!cursor_after(after, padding as int).representable());
                    return Err(RasterError::CompositeFailed);
                }
                left = next as u32;
                if m.height > max_row_height {
                    max_row_height = m.height;
                }
            },
        }
        i += 1;
    }
    assert(cells@.take(i as int) =~= cells@);
    Ok(info)
}

/// What the packer reads off a rasterized glyph.
pub open spec fn measure_of(glyph: RenderedGlyph) -> Measure {
    Measure {
        codepoint: glyph.codepoint,
        width: glyph.image.width,
        height: glyph.image.height,
        xoffset: glyph.offset.0,
        yoffset: glyph.offset.1,
        xadvance: glyph.advance.0,
    }
}

/// The codepoint of a character as the engine takes it.
pub open spec fn codepoint_of(c: char) -> usize {
    c as u32 as usize
}

/// The characters of `text` that get a glyph: all but the line breaks.
pub open spec fn glyph_chars(text: Seq<char>) -> Seq<char>
    decreases text.len(),
{
    if text.len() == 0 {
        Seq::empty()
    } else if text.last() == '\n' {
        glyph_chars(text.drop_last())
    } else {
        glyph_chars(text.drop_last()).push(text.last())
    }
}

/// The text as the packer sees it, once its glyphs are rasterized: a line
/// break for each line break, and for each other character the measure of
/// its glyph, the glyphs taken in the order of the text.
pub open spec fn cells_of(text: Seq<char>, glyphs: Seq<RenderedGlyph>) -> Seq<Cell>
    decreases text.len(),
{
    if text.len() == 0 {
        Seq::empty()
    } else if text.last() == '\n' {
        cells_of(text.drop_last(), glyphs).push(Cell::LineBreak)
    } else if glyphs.len() == 0 {
        cells_of(text.drop_last(), glyphs)
    } else {
        cells_of(text.drop_last(), glyphs.drop_last()).push(Cell::Glyph(measure_of(glyphs.last())))
    }
}

/// The line height in whole pixels.
pub open spec fn spec_line_height(metrics: LineMetrics) -> u32 {
    ((metrics.height as u32) / 64) as u32
}

/// The base line in whole pixels, rounded towards 0.
pub open spec fn spec_base(metrics: LineMetrics) -> i32 {
    let ascender = metrics.ascender as i32;
    if ascender >= 0 {
        (ascender / 64) as i32
    } else {
        (-((-ascender) / 64)) as i32
    }
}

/// The `char` line of a placed glyph. The descriptor counts `yoffset` down
/// from the top of the line, the packer up from the baseline.
pub open spec fn char_tag_of(glyph: GlyphInfo, line_height: u32) -> CharTag {
    CharTag {
        id: glyph.codepoint,
        x: glyph.x,
        y: glyph.y,
        width: glyph.width,
        height: glyph.height,
        xoffset: glyph.xoffset,
        yoffset: (line_height - glyph.yoffset) as i32,
        xadvance: glyph.xadvance,
        page: 0,
        chnl: 15,
    }
}

/// Every placement lies inside a canvas of `width` by `height` pixels.
pub open spec fn within_canvas(info: Seq<GlyphInfo>, width: u32, height: u32) -> bool {
    forall|i: int|
        0 <= i < info.len() ==> (#[trigger] info[i]).x + info[i].width <= width && info[i].y
            + info[i].height <= height
}

/// `font` is the descriptor of an atlas of `width` by `height` pixels in the
/// single page `file`, with the placements `info` and the line metrics
/// `metrics`: face name and character set empty, neither bold nor italic,
/// no Unicode, smoothing or anti-aliasing flag, no stretch, the same padding
/// on all four sides, no spacing and no outline; one `char` line for each
/// placement, in the same order.
pub open spec fn is_descriptor(
    font: FontFile,
    info: Seq<GlyphInfo>,
    file: String,
    font_size: u32,
    padding: u32,
    width: u32,
    height: u32,
    metrics: LineMetrics,
) -> bool {
    &&& font.info.face@.len() == 0
    &&& font.info.size == font_size
    &&& !font.info.bold && !font.info.italic && !font.info.unicode && !font.info.smooth
        && !font.info.aa
    &&& font.info.charset@.len() == 0
    &&& font.info.stretch_h == 100
    &&& font.info.padding@ == seq![padding, padding, padding, padding]
    &&& font.info.spacing@ == seq![0u32, 0u32]
    &&& font.info.outline == 0
    &&& font.common == (CommonTag {
        line_height: spec_line_height(metrics),
        base: spec_base(metrics),
        scale_w: width,
        scale_h: height,
        pages: 1,
        packed: false,
        alpha_channel: 0,
        red_channel: 0,
        green_channel: 0,
        blue_channel: 0,
    })
    &&& font.page.id == 0
    &&& font.page.file == file
    &&& font.chars@.len() == info.len()
    &&& forall|i: int|
        0 <= i < info.len() ==> #[trigger] font.chars@[i] == char_tag_of(
            info[i],
            spec_line_height(metrics),
        )
}

/// Takes what the renderer gave for one character of the text.
///
/// A glyph is put at the end of `glyphs`, and its measure at the end of
/// `cells`. An error is handed on as it is, and both lists stay as they were.
pub fn take_rendered(
    cells: &mut Vec<Cell>,
    glyphs: &mut Vec<RenderedGlyph>,
    rendered: Result<RenderedGlyph, RasterError>,
) -> (r: Result<(), RasterError>)
    ensures
        match rendered {
            Ok(glyph) => {
                &&& r.is_ok()
                &&& final(cells)@ == old(cells)@.push(Cell::Glyph(measure_of(glyph)))
                &&& final(glyphs)@ == old(glyphs)@.push(glyph)
            },
            Err(e) => {
                &&& r == Err::<(), RasterError>(e)
                &&& final(cells)@ == old(cells)@
                &&& final(glyphs)@ == old(glyphs)@
            },
        },
{
    match rendered {
        Ok(glyph) => {
            cells.push(
                Cell::Glyph(
                    Measure {
                        codepoint: glyph.codepoint,
                        width: glyph.image.width,
                        height: glyph.image.height,
                        xoffset: glyph.offset.0,
                        yoffset: glyph.offset.1,
                        xadvance: glyph.advance.0,
                    },
                ),
            );
            glyphs.push(glyph);
            Ok(())
        },
        Err(e) => Err(e),
    }
}

/// The packer. It keeps nothing from one run to the next.
pub struct Glyphs {}

impl Glyphs {
    /// A packer.
    pub fn new() -> (r: Glyphs) {
        Glyphs {  }
    }

    /// Whether every placement lies inside a canvas of `width` by `height`
    /// pixels. The packer does not look at the canvas; a glyph that reaches
    /// beyond it is cut off when the atlas is painted.
    pub fn fits_canvas(&self, info: &Vec<GlyphInfo>, width: u32, height: u32) -> (inside: bool)
        ensures
            inside == within_canvas(info@, width, height),
    {
        let mut i: usize = 0;
        while i < info.len()
            invariant
                i <= info.len(),
                within_canvas(info@.take(i as int), width, height),
            decreases info.len() - i,
        {
            let g = info[i];
            if g.x as u64 + g.width as u64 > width as u64 || g.y as u64 + g.height as u64 > height as u64 {
                return false;
            }
            assert forall|k: int| 0 <= k < i + 1 implies (#[trigger] info@.take(i + 1)[k]).x + info@.take(
                i + 1,
            )[k].width <= width && info@.take(i + 1)[k].y + info@.take(i + 1)[k].height <= height by {
                if k < i {
                    assert(info@.take(i as int)[k] == info@.take(i + 1)[k]);
                }
            }
            i += 1;
        }
        assert(info@.take(i as int) =~= info@);
        true
    }

    /// Rasterizes the glyphs of `text` and lays them out.
    ///
    /// Every character but the line break is rasterized, in the order of the
    /// text; the first failure ends the run with its error, and no part of
    /// the atlas is handed out. The glyphs are then laid out as `layout`
    /// says. The result holds the placements and, in the same order, the
    /// glyphs to paint at them.
    pub fn pack(&self, renderer: &Renderer, text: &str, padding: u32) -> (r: Result<
        (Vec<GlyphInfo>, Vec<RenderedGlyph>),
        RasterError,
    >)
        ensures
            match r {
                Ok((info, glyphs)) => {
                    &&& glyphs@.len() == glyph_chars(text@).len()
                    &&& forall|i: int|
                        0 <= i < glyphs@.len() ==> (#[trigger] glyphs@[i]).codepoint == codepoint_of(
                            glyph_chars(text@)[i],
                        ) && glyphs@[i].image.well_formed() && glyphs@[i].image.planes@.len() == (if renderer.has_outline() {
                            2nat
                        } else {
                            1nat
                        }) && renderer.may_render(
                            codepoint_of(glyph_chars(text@)[i]),
                            Ok(glyphs@[i]),
                        )
                    &&& fits(cells_of(text@, glyphs@), padding as int)
                    &&& info@ == placed(cells_of(text@, glyphs@), padding as int)
                },
                Err(e) => {
                    &&& e != RasterError::EncodeFailed
                    &&& e != RasterError::IoFailed
                    &&& e == RasterError::StrokeFailed ==> renderer.has_outline()
                    &&& glyph_chars(text@).len() == 0 ==> e == RasterError::CompositeFailed && !fits(
                        cells_of(text@, Seq::empty()),
                        padding as int,
                    )
                },
            },
    {
        let chars = chars_of(text);
        let mut cells: Vec<Cell> = Vec::new();
        let mut glyphs: Vec<RenderedGlyph> = Vec::new();
        let mut i: usize = 0;
        assert(chars@.take(0) =~= Seq::<char>::empty());
        while i < chars.len()
            invariant
                i <= chars.len(),
                chars@ == text@,
                glyphs@.len() == glyph_chars(chars@.take(i as int)).len(),
                forall|k: int|
                    0 <= k < glyphs@.len() ==> (#[trigger] glyphs@[k]).codepoint == codepoint_of(
                        glyph_chars(chars@.take(i as int))[k],
                    ) && glyphs@[k].image.well_formed() && glyphs@[k].image.planes@.len() == (if renderer.has_outline() {
                        2nat
                    } else {
                        1nat
                    }) && renderer.may_render(
                        codepoint_of(glyph_chars(chars@.take(i as int))[k]),
                        Ok(glyphs@[k]),
                    ),
                cells@ == cells_of(chars@.take(i as int), glyphs@),
            decreases chars.len() - i,
        {
            let ghost before = chars@.take(i as int);
            let ghost after = chars@.take(i + 1);
            assert(after.drop_last() =~= before);
            assert(after.last() == chars@[i as int]);
            let c = chars[i];
            if c == '\n' {
                cells.push(Cell::LineBreak);
            } else {
                let ghost old_glyphs = glyphs@;
                let rendered = renderer.render(c as u32 as usize);
                let ghost given = rendered;
                match take_rendered(&mut cells, &mut glyphs, rendered) {
                    Ok(_) => {},
                    Err(e) => {
                        assert(glyph_chars(text@).len() > 0) by {
                            lemma_glyph_chars_grow(text@, i + 1);
                        }
                        return Err(e);
                    },
                }
                assert(glyphs@.drop_last() =~= old_glyphs);
                assert(glyphs@.last() == given.unwrap());
            }
            i += 1;
        }
        assert(chars@.take(i as int) =~= chars@);
        match layout(&cells, padding) {
            Ok(info) => Ok((info, glyphs)),
            Err(e) => {
                proof {
                    if glyph_chars(text@).len() == 0 {
                        assert(glyphs@ =~= Seq::<RenderedGlyph>::empty());
                    }
                }
                Err(e)
            },
        }
    }

    /// Rasterizes and lays out the text of `render_settings`, with the
    /// outline and the padding that they ask for.
    ///
    /// Fails with `StrokeFailed` where the outline cannot be set up, and as
    /// `pack` does. A padding below 0 fits no layout.
    pub fn render_to_surface(&self, render_settings: &RenderSettings) -> (r: Result<
        (Vec<GlyphInfo>, Vec<RenderedGlyph>),
        RasterError,
    >)
        ensures
            match r {
                Ok((info, glyphs)) => {
                    &&& glyphs@.len() == glyph_chars(render_settings.text@).len()
                    &&& forall|i: int|
                        0 <= i < glyphs@.len() ==> (#[trigger] glyphs@[i]).codepoint == codepoint_of(
                            glyph_chars(render_settings.text@)[i],
                        ) && glyphs@[i].image.well_formed() && glyphs@[i].image.planes@.len() == (if render_settings.border_width
                            > 0 {
                            2nat
                        } else {
                            1nat
                        }) && may_give(
                            render_settings.border_width > 0,
                            codepoint_of(glyph_chars(render_settings.text@)[i]),
                            Ok(glyphs@[i]),
                        )
                    &&& fits(
                        cells_of(render_settings.text@, glyphs@),
                        render_settings.letter_padding as int,
                    )
                    &&& info@ == placed(
                        cells_of(render_settings.text@, glyphs@),
                        render_settings.letter_padding as int,
                    )
                },
                Err(e) => {
                    &&& e != RasterError::EncodeFailed
                    &&& e != RasterError::IoFailed
                    &&& e == RasterError::StrokeFailed ==> render_settings.border_width > 0
                },
            },
            !(0 <= render_settings.letter_padding <= u32::MAX) ==> r.is_err(),
            render_settings.border_width <= 0 && glyph_chars(render_settings.text@).len() == 0 ==> (r.is_ok()
                <==> fits(
                cells_of(render_settings.text@, Seq::empty()),
                render_settings.letter_padding as int,
            )),
    {
        let mut renderer = Renderer::new(render_settings.library, render_settings.face);
        match renderer.set_outline(render_settings.border_width) {
            Ok(_) => {},
            Err(e) => {
                return Err(e);
            },
        }
        if render_settings.letter_padding < 0 || render_settings.letter_padding as i128 > u32::MAX as i128 {
            proof {
                lemma_padding_must_fit(
                    cells_of(render_settings.text@, Seq::empty()),
                    render_settings.letter_padding as int,
                );
            }
            return Err(RasterError::CompositeFailed);
        }
        let padding: u32 = render_settings.letter_padding as u32;
        let r = self.pack(&renderer, render_settings.text.as_str(), padding);
        proof {
            if r.is_ok() && glyph_chars(render_settings.text@).len() == 0 {
                assert(r.unwrap().1@ =~= Seq::<RenderedGlyph>::empty());
            }
        }
        r
    }

    /// The descriptor of a packed atlas.
    ///
    /// The face name and the character set are left empty, the font is
    /// neither bold nor italic, the padding is the same on all four sides
    /// and there is no spacing. The atlas is a single page, `file`, of
    /// `width` by `height` pixels. The glyphs come in the order in which
    /// they were placed, all on page 0 and in all four channels.
    pub fn font_file(
        &self,
        info: &Vec<GlyphInfo>,
        file: String,
        font_size: u32,
        padding: u32,
        width: u32,
        height: u32,
        metrics: LineMetrics,
    ) -> (r: FontFile)
        ensures
            is_descriptor(r, info@, file, font_size, padding, width, height, metrics),
    {
        let line_height: u32 = (#[verifier::truncate] (metrics.height as u32)) / 64;
        let base: i32 = (#[verifier::truncate] (metrics.ascender as i32)) / 64;
        let mut chars: Vec<CharTag> = Vec::new();
        let mut i: usize = 0;
        while i < info.len()
            invariant
                i <= info.len(),
                chars@.len() == i,
                forall|k: int| 0 <= k < i ==> #[trigger] chars@[k] == char_tag_of(info@[k], line_height),
            decreases info.len() - i,
        {
            let g = info[i];
            chars.push(
                CharTag {
                    id: g.codepoint,
                    x: g.x,
                    y: g.y,
                    width: g.width,
                    height: g.height,
                    xoffset: g.xoffset,
                    yoffset: #[verifier::truncate]
                    ((line_height as i64 - g.yoffset as i64) as i32),
                    xadvance: g.xadvance,
                    page: 0,
                    chnl: 15,
                },
            );
            i += 1;
        }
        FontFile {
            info: InfoTag {
                face: String::new(),
                size: font_size,
                bold: false,
                italic: false,
                charset: String::new(),
                unicode: false,
                stretch_h: 100,
                smooth: false,
                aa: false,
                padding: [padding, padding, padding, padding],
                spacing: [0, 0],
                outline: 0,
            },
            common: CommonTag {
                line_height,
                base,
                scale_w: width,
                scale_h: height,
                pages: 1,
                packed: false,
                alpha_channel: 0,
                red_channel: 0,
                green_channel: 0,
                blue_channel: 0,
            },
            page: PageTag { id: 0, file },
            chars,
        }
    }

    /// The descriptor of a packed atlas, with the line metrics of the face
    /// that `renderer` draws from; `None` where the engine has no size for
    /// the face. Whatever metrics the engine gives, the descriptor is the
    /// one that `font_file` makes of them.
    pub fn describe(
        &self,
        renderer: &Renderer,
        info: &Vec<GlyphInfo>,
        file: String,
        font_size: u32,
        padding: u32,
        width: u32,
        height: u32,
    ) -> (r: Option<FontFile>)
        ensures
            match r {
                Some(font) => exists|metrics: LineMetrics| #[trigger]
                    is_descriptor(font, info@, file, font_size, padding, width, height, metrics),
                None => true,
            },
    {
        let ghost page_file = file;
        match renderer.line_metrics() {
            Some(metrics) => {
                let r = Some(self.font_file(info, file, font_size, padding, width, height, metrics));
                proof {
                    assert(is_descriptor(
                        r.unwrap(),
                        info@,
                        page_file,
                        font_size,
                        padding,
                        width,
                        height,
                        metrics,
                    ));
                }
                r
            },
            None => None,
        }
    }
}

/// No layout fits a padding that is not a coordinate: the cursor starts one
/// padding from the left and from the top.
pub proof fn lemma_padding_must_fit(cells: Seq<Cell>, padding: int)
    requires
        !(0 <= padding <= u32::MAX),
    ensures
        !fits(cells, padding),
{
    assert(cells.take(0) =~= Seq::<Cell>::empty());
    assert(!cursor_after(cells.take(0), padding).representable());
}

/// A text that has a character other than a line break among its first `n`
/// has at least one glyph.
pub proof fn lemma_glyph_chars_grow(text: Seq<char>, n: int)
    requires
        0 < n <= text.len(),
        text[n - 1] != '\n',
    ensures
        glyph_chars(text).len() > 0,
    decreases text.len(),
{
    if n < text.len() {
        lemma_glyph_chars_grow(text.drop_last(), n);
    }
}

/// The first glyph of a text lies one padding from the left edge and one
/// from the top.
pub proof fn lemma_first_glyph(m: Measure, padding: int)
    ensures
        placed(seq![Cell::Glyph(m)], padding) == seq![place_at(cursor_start(padding), m)],
{
    let cells = seq![Cell::Glyph(m)];
    let none = Seq::<Cell>::empty();
    assert(cells.drop_last() =~= none);
    assert(cells.last() == Cell::Glyph(m));
    assert(placed(none, padding) =~= Seq::<GlyphInfo>::empty());
    assert(cursor_after(none, padding) == cursor_start(padding));
    assert(placed(cells, padding) =~= seq![place_at(cursor_start(padding), m)]);
}

/// A glyph that follows a line break starts a new row: it lies one padding
/// from the left edge, and below the top of the row before it by the height
/// of the tallest glyph of that row and one padding.
pub proof fn lemma_glyph_after_line_break(front: Seq<Cell>, m: Measure, padding: int)
    ensures
        ({
            let cells = front.push(Cell::LineBreak).push(Cell::Glyph(m));
            let row = cursor_after(front, padding);
            &&& placed(cells, padding) == placed(front, padding).push(
                place_at(
                    Cursor {
                        left: padding,
                        top: row.top + row.max_row_height + padding,
                        max_row_height: 0,
                    },
                    m,
                ),
            )
        }),
{
    let broken = front.push(Cell::LineBreak);
    let cells = broken.push(Cell::Glyph(m));
    assert(broken.drop_last() =~= front);
    assert(broken.last() == Cell::LineBreak);
    assert(cells.drop_last() =~= broken);
    assert(cells.last() == Cell::Glyph(m));
    assert(placed(broken, padding) == placed(front, padding));
    assert(cursor_after(broken, padding) == cursor_step(cursor_after(front, padding), Cell::LineBreak, padding));
}

/// Two glyphs that follow each other in a row: the second lies to the right
/// of the first by the width of the first and one padding, at the same
/// height.
pub proof fn lemma_glyph_after_glyph(front: Seq<Cell>, a: Measure, b: Measure, padding: int)
    ensures
        ({
            let cells = front.push(Cell::Glyph(a)).push(Cell::Glyph(b));
            let cursor = cursor_after(front, padding);
            &&& placed(cells, padding) == placed(front, padding).push(place_at(cursor, a)).push(
                place_at(
                    Cursor {
                        left: cursor.left + a.width + padding,
                        top: cursor.top,
                        max_row_height: if cursor.max_row_height >= a.height {
                            cursor.max_row_height
                        } else {
                            a.height as int
                        },
                    },
                    b,
                ),
            )
        }),
{
    let one = front.push(Cell::Glyph(a));
    let cells = one.push(Cell::Glyph(b));
    assert(one.drop_last() =~= front);
    assert(one.last() == Cell::Glyph(a));
    assert(cells.drop_last() =~= one);
    assert(cells.last() == Cell::Glyph(b));
    assert(placed(one, padding) == placed(front, padding).push(place_at(cursor_after(front, padding), a)));
    assert(cursor_after(one, padding) == cursor_step(cursor_after(front, padding), Cell::Glyph(a), padding));
}

/// Every character but the line break gets one placement, repeated
/// characters too, and the placements keep the order and the codepoints of
/// the text.
pub proof fn lemma_one_placement_per_glyph(text: Seq<char>, glyphs: Seq<RenderedGlyph>, padding: int)
    requires
        glyphs.len() == glyph_chars(text).len(),
    ensures
        placed(cells_of(text, glyphs), padding).len() == glyphs.len(),
        forall|i: int|
            0 <= i < glyphs.len() ==> (#[trigger] placed(cells_of(text, glyphs), padding)[i]).codepoint
                == glyphs[i].codepoint,
    decreases text.len(),
{
    if text.len() > 0 {
        let cells = cells_of(text, glyphs);
        if text.last() == '\n' {
            lemma_one_placement_per_glyph(text.drop_last(), glyphs, padding);
            assert(cells.drop_last() =~= cells_of(text.drop_last(), glyphs));
        } else {
            lemma_one_placement_per_glyph(text.drop_last(), glyphs.drop_last(), padding);
            assert(cells.drop_last() =~= cells_of(text.drop_last(), glyphs.drop_last()));
        }
    }
}

/// Packing is repeatable: the placements depend on the text, the padding and
/// the measures of the glyphs, and on nothing else. Two runs in which the
/// engine gives glyphs of the same measures place them alike.
pub proof fn lemma_pack_repeatable(
    text: Seq<char>,
    first: Seq<RenderedGlyph>,
    second: Seq<RenderedGlyph>,
    padding: int,
)
    requires
        first.len() == second.len(),
        forall|i: int| 0 <= i < first.len() ==> measure_of(#[trigger] first[i]) == measure_of(second[i]),
    ensures
        cells_of(text, first) == cells_of(text, second),
        placed(cells_of(text, first), padding) == placed(cells_of(text, second), padding),
        fits(cells_of(text, first), padding) == fits(cells_of(text, second), padding),
    decreases text.len(),
{
    if text.len() > 0 {
        if text.last() == '\n' || first.len() == 0 {
            lemma_pack_repeatable(text.drop_last(), first, second, padding);
        } else {
            assert(measure_of(first[first.len() - 1]) == measure_of(second[first.len() - 1]));
            lemma_pack_repeatable(text.drop_last(), first.drop_last(), second.drop_last(), padding);
        }
    }
}

} // verus!
