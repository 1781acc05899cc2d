//! Rasterizing one glyph with the FreeType engine.
//!
//! The engine loads the outline of a codepoint, strokes it if an outline
//! width is set, and turns each outline into a coverage bitmap. What it hands
//! back is checked and assembled here: the layers are laid onto their common
//! grid, the outline below the fill, and the cursor advance and the offset of
//! the glyph from the baseline are put into whole pixels.

use vstd::prelude::*;
use crate::bbox::BBox;
use crate::compositor::{composite, compositable, CoverageImage, Layer};
use crate::error::RasterError;

verus! {

/// `Library` of FreeType: the engine. Nothing of it is visible here.
#[verifier::external_type_specification]
#[verifier::external_body]
pub struct ExLibrary(freetype::Library);

/// `Face` of FreeType: a typeface with the size that is set on it and the
/// glyph that was loaded last. Nothing of it is visible here.
#[verifier::external_type_specification]
#[verifier::external_body]
#[verifier::reject_recursive_types(BYTES)]
pub struct ExFace<BYTES>(freetype::Face<BYTES>);

/// `Glyph` of FreeType: a glyph taken out of a face. Nothing of it is visible
/// here.
#[verifier::external_type_specification]
#[verifier::external_body]
pub struct ExGlyph(freetype::Glyph);

/// `BitmapGlyph` of FreeType: a glyph that has been rasterized. Nothing of it
/// is visible here.
#[verifier::external_type_specification]
#[verifier::external_body]
pub struct ExBitmapGlyph(freetype::BitmapGlyph);

/// `Stroker` of FreeType: draws the border of an outline. Nothing of it is
/// visible here.
#[verifier::external_type_specification]
#[verifier::external_body]
pub struct ExStroker(freetype::Stroker);

/// `Error` of FreeType: why the engine refused. Only that there is one is
/// used here.
#[verifier::external_type_specification]
#[verifier::external_body]
pub struct ExError(freetype::Error);

/// Whole pixels of an advance that the engine gives in 1/65536 of a pixel.
/// The fraction is dropped towards minus infinity, not rounded.
pub open spec fn whole_pixels(advance: isize) -> i32 {
    ((advance as int) / 65536) as i32
}

/// A coordinate of a box as the 32-bit value that a glyph carries.
pub open spec fn narrow(coordinate: i64) -> i32 {
    coordinate as i32
}

/// What the engine gives for one glyph: its coverage bitmap, the box of the
/// bitmap in whole pixels, and the advance in 1/65536 of a pixel.
pub struct EngineGlyph {
    pub coverage: Vec<u8>,
    pub bbox: BBox,
    pub advance_x: isize,
    pub advance_y: isize,
}

impl EngineGlyph {
    /// The bitmap and its box, as the compositor takes them.
    pub open spec fn layer(&self) -> Layer {
        Layer { coverage: self.coverage, bbox: self.bbox }
    }

    /// The bitmap and its box, as the compositor takes them.
    pub fn into_layer(self) -> (r: Layer)
        ensures
            r == self.layer(),
    {
        Layer { coverage: self.coverage, bbox: self.bbox }
    }
}

/// The layers of a glyph in painting order: the outline, if there is one,
/// then the fill.
pub open spec fn layers_of(outline: Option<EngineGlyph>, fill: EngineGlyph) -> Seq<Layer> {
    match outline {
        Some(o) => seq![o.layer(), fill.layer()],
        None => seq![fill.layer()],
    }
}

/// How the engine answered when it was asked for the glyph of a codepoint.
pub enum EngineAnswer {
    /// The face could not load the glyph.
    NotLoaded,
    /// The outline of the glyph could not be stroked.
    NotStroked,
    /// The glyph, or its stroked outline, could not be turned into a
    /// coverage bitmap.
    NotRasterized,
    /// The glyph was rasterized, and so was its stroked outline if one was
    /// asked for.
    Rasterized { outline: Option<EngineGlyph>, fill: EngineGlyph },
}

/// The vertical metrics of a face at the size that is set, in 1/64 of a pixel.
#[derive(Clone, Copy, Debug, PartialEq, Eq, Structural)]
pub struct LineMetrics {
    /// The distance from one baseline to the next.
    pub height: i64,
    /// The distance from the baseline to the top of the line.
    pub ascender: i64,
}

/// One rasterized glyph: its layers on their common grid and its metrics.
pub struct RenderedGlyph {
    /// The coverage of each layer; `image.width` and `image.height` are the
    /// size of the glyph in the atlas.
    pub image: CoverageImage,
    /// Unicode codepoint
    pub codepoint: usize,
    /// Distance to move the text cursor forward to render the next glyph, in pixels
    pub advance: (i32, i32),
    /// Offset of top-left corner from baseline, in pixels
    pub offset: (i32, i32),
}

impl RenderedGlyph {
    /// `self` is the glyph that the engine's bitmaps for `codepoint` make:
    /// the layers on the union of their boxes, the advance of the fill in
    /// whole pixels (the outline has no say in it), and as offset the left
    /// and the upper edge of the first layer's box.
    pub open spec fn assembled_from(
        &self,
        codepoint: usize,
        outline: Option<EngineGlyph>,
        fill: EngineGlyph,
    ) -> bool {
        let layers = layers_of(outline, fill);
        &&& self.image.holds(layers)
        &&& self.image.well_formed()
        &&& self.codepoint == codepoint
        &&& self.advance == (whole_pixels(fill.advance_x), whole_pixels(fill.advance_y))
        &&& self.offset == (narrow(layers[0].bbox.x_min), narrow(layers[0].bbox.y_max))
    }
}

/// `r` is what becomes of the engine's answer for `codepoint`: a load that
/// was refused is `GlyphNotFound`, a stroke that was refused `StrokeFailed`,
/// a rasterization that was refused `RasterFailed`, and none of them gives a
/// glyph; bitmaps are assembled, and are `CompositeFailed` exactly when they
/// cannot be composited.
pub open spec fn is_outcome(
    codepoint: usize,
    answer: EngineAnswer,
    r: Result<RenderedGlyph, RasterError>,
) -> bool {
    match answer {
        EngineAnswer::NotLoaded => r == Err::<RenderedGlyph, RasterError>(RasterError::GlyphNotFound),
        EngineAnswer::NotStroked => r == Err::<RenderedGlyph, RasterError>(RasterError::StrokeFailed),
        EngineAnswer::NotRasterized => r == Err::<RenderedGlyph, RasterError>(
            RasterError::RasterFailed,
        ),
        EngineAnswer::Rasterized { outline, fill } => match r {
            Ok(glyph) => compositable(layers_of(outline, fill)) && glyph.assembled_from(
                codepoint,
                outline,
                fill,
            ),
            Err(e) => e == RasterError::CompositeFailed && !compositable(layers_of(outline, fill)),
        },
    }
}

/// The engine may give `answer` when it is asked with (`outlined`) or
/// without an outline: it strokes only with an outline, and gives the bitmap
/// of an outline exactly then.
pub open spec fn may_answer(outlined: bool, answer: EngineAnswer) -> bool {
    match answer {
        EngineAnswer::NotStroked => outlined,
        EngineAnswer::Rasterized { outline, fill } => outline.is_some() == outlined,
        _ => true,
    }
}

/// `r` is what rendering `codepoint` may give, with or without an outline:
/// what becomes of some answer that the engine may give.
pub open spec fn may_give(outlined: bool, codepoint: usize, r: Result<RenderedGlyph, RasterError>) -> bool {
    exists|answer: EngineAnswer| may_answer(outlined, answer) && #[trigger] is_outcome(codepoint, answer, r)
}

/// The whole pixels of a fixed-point advance.
pub fn to_whole_pixels(advance: isize) -> (r: i32)
    ensures
        r == whole_pixels(advance),
{
    let wide: i64 = advance as i64;
    let shifted: i64 = wide >> 16;
    assert(shifted == wide / 65536) by (bit_vector)
        requires
            shifted == wide >> 16,
    ;
    #[verifier::truncate]
    (shifted as i32)
}

/// Puts together the bitmaps that the engine gave for one codepoint.
///
/// Succeeds exactly when the layers are compositable; otherwise the engine's
/// bitmaps and boxes do not fit together and the result is `CompositeFailed`.
/// The advance is the one of the fill.
pub fn assemble(codepoint: usize, outline: Option<EngineGlyph>, fill: EngineGlyph) -> (r: Result<
    RenderedGlyph,
    RasterError,
>)
    ensures
        is_outcome(codepoint, EngineAnswer::Rasterized { outline, fill }, r),
{
    let ghost expected = layers_of(outline, fill);
    let advance = (to_whole_pixels(fill.advance_x), to_whole_pixels(fill.advance_y));
    let mut layers: Vec<Layer> = Vec::new();
    match outline {
        Some(o) => {
            layers.push(o.into_layer());
        },
        None => {},
    }
    layers.push(fill.into_layer());
    assert(layers@ =~= expected);
    let first = layers[0].bbox;
    match composite(&layers) {
        Ok(image) => Ok(
            RenderedGlyph {
                image,
                codepoint,
                advance,
                offset: (
                    #[verifier::truncate]
                    (first.x_min as i32),
                    #[verifier::truncate]
                    (first.y_max as i32),
                ),
            },
        ),
        Err(e) => Err(e),
    }
}

/// The glyph, or the error, that the engine's answer for `codepoint` gives.
pub fn glyph_from(codepoint: usize, answer: EngineAnswer) -> (r: Result<RenderedGlyph, RasterError>)
    ensures
        is_outcome(codepoint, answer, r),
{
    match answer {
        EngineAnswer::NotLoaded => Err(RasterError::GlyphNotFound),
        EngineAnswer::NotStroked => Err(RasterError::StrokeFailed),
        EngineAnswer::NotRasterized => Err(RasterError::RasterFailed),
        EngineAnswer::Rasterized { outline, fill } => assemble(codepoint, outline, fill),
    }
}

/// A glyph without any covered pixel, such as a space: if its fill is an
/// empty bitmap with a box that fits, and its outline (if it has one) is
/// empty with the same box, it is assembled without error, has no area, and
/// keeps the advance that the engine gave for the fill; from one whole pixel
/// on, as far as 32 bits hold it, that advance is not 0.
pub proof fn lemma_blank_glyph(outline: Option<EngineGlyph>, fill: EngineGlyph)
    requires
        fill.layer().well_formed(),
        fill.coverage@.len() == 0,
        fill.bbox.width() <= u32::MAX,
        fill.bbox.height() <= u32::MAX,
        match outline {
            Some(o) => o.layer().well_formed() && o.coverage@.len() == 0 && o.bbox == fill.bbox,
            None => true,
        },
    ensures
        compositable(layers_of(outline, fill)),
        forall|glyph: RenderedGlyph, codepoint: usize|
            #[trigger] glyph.assembled_from(codepoint, outline, fill) ==> glyph.image.width
                * glyph.image.height == 0 && glyph.advance.0 == whole_pixels(fill.advance_x)
                && glyph.codepoint == codepoint,
        65536 <= fill.advance_x && fill.advance_x / 65536 <= i32::MAX ==> whole_pixels(fill.advance_x)
            != 0,
{
    let layers = layers_of(outline, fill);
    let boxes = crate::compositor::boxes_of(layers);
    let frame = crate::compositor::frame_of(layers);
    assert(frame == fill.bbox) by {
        match outline {
            Some(o) => {
                let front = boxes.drop_last();
                assert(front.drop_last().len() == 0);
                assert(BBox::spec_union_all(front.drop_last()) == BBox::spec_nothing());
                assert(front.last() == o.bbox);
                assert(BBox::spec_union_all(front) == o.bbox);
                assert(boxes.last() == fill.bbox);
            },
            None => {
                assert(boxes.drop_last().len() == 0);
                assert(BBox::spec_union_all(boxes.drop_last()) == BBox::spec_nothing());
                assert(boxes.last() == fill.bbox);
            },
        }
    }
    assert(frame.width() * frame.height() * 4 == 0);
}

/// The format tag that the engine gives to a glyph that is an outline: the
/// letters `outl`.
pub const OUTLINE_FORMAT: u32 = 0x6f75_746c;

/// Whether a glyph of this format tag is an outline. Only an outline is
/// handed to the engine to be rasterized.
pub fn is_outline_format(format: u32) -> (r: bool)
    ensures
        r == (format == OUTLINE_FORMAT),
{
    format == OUTLINE_FORMAT
}

/// A length in 1/64 of its unit, where 64 bits hold it.
pub open spec fn spec_sixty_fourths(value: isize) -> Option<i64> {
    if i64::MIN <= value * 64 <= i64::MAX {
        Some((value * 64) as i64)
    } else {
        None
    }
}

/// A length in 1/64 of its unit, as the engine takes lengths; `None` where 64
/// bits do not hold it.
pub fn sixty_fourths(value: isize) -> (r: Option<i64>)
    ensures
        r == spec_sixty_fourths(value),
{
    let wide: i128 = value as i128 * 64;
    if wide < i64::MIN as i128 || wide > i64::MAX as i128 {
        None
    } else {
        Some(wide as i64)
    }
}

/// The radius of the stroke for an outline of `width` pixels, in 1/64 of a
/// pixel; none for a width that is not above 0 or too large.
pub open spec fn spec_stroke_radius(width: isize) -> Option<i64> {
    if 0 < width && width * 64 <= i64::MAX {
        Some((width * 64) as i64)
    } else {
        None
    }
}

/// The radius that is handed to the stroker for an outline of `width`
/// pixels: 64 units for each pixel.
pub fn stroke_radius(width: isize) -> (r: Option<i64>)
    ensures
        r == spec_stroke_radius(width),
{
    if width > 0 {
        sixty_fourths(width)
    } else {
        None
    }
}

/// `Face::load_char` of FreeType with the default load flags: makes the
/// glyph of `codepoint` the current glyph of the face. Nothing is claimed of
/// the outcome.
#[verifier::external_body]
pub(crate) fn face_load_char(face: &freetype::Face, codepoint: usize) -> (r: Result<(), freetype::Error>) {
    face.load_char(codepoint, freetype::face::LoadFlag::DEFAULT)
}

/// `GlyphSlot::get_glyph` of FreeType on the slot of the face (`Face::glyph`):
/// a copy of the current glyph. Nothing is claimed of the outcome.
#[verifier::external_body]
pub(crate) fn face_get_glyph(face: &freetype::Face) -> (r: Result<freetype::Glyph, freetype::Error>) {
    face.glyph().get_glyph()
}

/// `Glyph::format` of FreeType: the format tag of the glyph. Nothing is
/// claimed of the tag.
#[verifier::external_body]
pub(crate) fn glyph_format(glyph: &freetype::Glyph) -> (r: u32) {
    glyph.format() as u32
}

/// `Glyph::get_cbox` of FreeType in whole pixels: the control box of the
/// glyph. Nothing is claimed of the box.
#[verifier::external_body]
pub(crate) fn glyph_cbox(glyph: &freetype::Glyph) -> (r: BBox) {
    let b = glyph.get_cbox(freetype::ffi::FT_GLYPH_BBOX_PIXELS);
    BBox { x_min: b.xMin as i64, y_min: b.yMin as i64, x_max: b.xMax as i64, y_max: b.yMax as i64 }
}

/// `Glyph::to_bitmap` of FreeType in the normal (8-bit, anti-aliased) render
/// mode, without an origin. Nothing is claimed of the outcome.
///
/// For a glyph that is a bitmap already the engine hands the glyph itself
/// back, which would then be released twice. The callers ask for the format
/// first and call this for an outline only.
#[verifier::external_body]
pub(crate) fn glyph_to_bitmap(glyph: &freetype::Glyph) -> (r: Result<freetype::BitmapGlyph, freetype::Error>) {
    glyph.to_bitmap(freetype::RenderMode::Normal, None)
}

/// `Glyph::stroke_border` of FreeType for the outer border: a new glyph whose
/// outline is the border that the stroker draws round the glyph. Nothing is
/// claimed of the outcome.
#[verifier::external_body]
pub(crate) fn glyph_stroke_border(glyph: &freetype::Glyph, stroker: &freetype::Stroker) -> (r: Result<
    freetype::Glyph,
    freetype::Error,
>) {
    glyph.stroke_border(stroker, false)
}

/// `Glyph::advance_x` of FreeType: the horizontal advance in 1/65536 of a pixel.
#[verifier::external_body]
pub(crate) fn glyph_advance_x(glyph: &freetype::Glyph) -> (r: isize) {
    glyph.advance_x()
}

/// `Glyph::advance_y` of FreeType: the vertical advance in 1/65536 of a pixel.
#[verifier::external_body]
pub(crate) fn glyph_advance_y(glyph: &freetype::Glyph) -> (r: isize) {
    glyph.advance_y()
}

/// `Bitmap::buffer` of FreeType on the bitmap of a bitmap glyph
/// (`BitmapGlyph::bitmap`): a copy of its bytes. Nothing is claimed of them.
#[verifier::external_body]
pub(crate) fn bitmap_glyph_buffer(glyph: &freetype::BitmapGlyph) -> (r: Vec<u8>) {
    glyph.bitmap().buffer().to_vec()
}

/// `Bitmap::width` of FreeType on the bitmap of a bitmap glyph
/// (`BitmapGlyph::bitmap`): the number of pixels in a row.
#[verifier::external_body]
pub(crate) fn bitmap_glyph_width(glyph: &freetype::BitmapGlyph) -> (r: i32) {
    glyph.bitmap().width()
}

/// `Bitmap::rows` of FreeType on the bitmap of a bitmap glyph
/// (`BitmapGlyph::bitmap`): the number of rows.
#[verifier::external_body]
pub(crate) fn bitmap_glyph_rows(glyph: &freetype::BitmapGlyph) -> (r: i32) {
    glyph.bitmap().rows()
}

/// `Library::new_stroker` of FreeType. Nothing is claimed of the outcome.
#[verifier::external_body]
pub(crate) fn library_new_stroker(library: &freetype::Library) -> (r: Result<freetype::Stroker, freetype::Error>) {
    library.new_stroker()
}

/// `Stroker::set` of FreeType with round line caps and round line joins;
/// `radius` is in 1/64 of a pixel.
#[verifier::external_body]
pub(crate) fn stroker_set_round(stroker: &freetype::Stroker, radius: i64, miter_limit: i64) {
    stroker.set(
        radius as freetype::ffi::FT_Fixed,
        freetype::StrokerLineCap::Round,
        freetype::StrokerLineJoin::Round,
        miter_limit as freetype::ffi::FT_Fixed,
    )
}

/// `Face::set_char_size` of FreeType: the character width and height in 1/64
/// of a point (a width of 0 follows the height) and the resolution in dots
/// per inch (0 is the engine's default). Nothing is claimed of the outcome.
#[verifier::external_body]
pub(crate) fn face_set_char_size(
    face: &freetype::Face,
    char_width: isize,
    char_height: isize,
    horz_resolution: u32,
    vert_resolution: u32,
) -> (r: Result<(), freetype::Error>) {
    face.set_char_size(char_width, char_height, horz_resolution, vert_resolution)
}

/// `Face::size_metrics` of FreeType: of the metrics of the size that is set on
/// the face, the line height and the ascender, both in 1/64 of a pixel; `None`
/// where the engine has no size for the face. Nothing is claimed of the values.
#[verifier::external_body]
fn face_size_metrics(face: &freetype::Face) -> (r: Option<LineMetrics>) {
    match face.size_metrics() {
        Some(m) => Some(LineMetrics { height: m.height as i64, ascender: m.ascender as i64 }),
        None => None,
    }
}

/// Turns a glyph of the engine into a coverage bitmap with its box and its
/// advance; `None` where the glyph is no outline or the engine refuses.
pub(crate) fn rasterize(glyph: &freetype::Glyph) -> (r: Option<EngineGlyph>) {
    if !is_outline_format(glyph_format(glyph)) {
        return None;
    }
    let bbox = glyph_cbox(glyph);
    match glyph_to_bitmap(glyph) {
        Ok(bitmap) => Some(
            EngineGlyph {
                coverage: bitmap_glyph_buffer(&bitmap),
                bbox,
                advance_x: glyph_advance_x(glyph),
                advance_y: glyph_advance_y(glyph),
            },
        ),
        Err(_) => None,
    }
}

/// Rasterizes the glyphs of one face, with an outline round them if a width
/// is set.
pub struct Renderer<'a> {
    library: &'a freetype::Library,
    face: &'a freetype::Face,
    outline_stroker: Option<freetype::Stroker>,
    outline_width: isize,
    outline_radius: i64,
}

impl<'a> Renderer<'a> {
    /// Glyphs are stroked before they are filled.
    pub closed spec fn has_outline(&self) -> bool {
        self.outline_stroker.is_some()
    }

    /// The width of the outline in pixels; not above 0 where there is none.
    pub closed spec fn outline_width(&self) -> isize {
        self.outline_width
    }

    /// The radius that the stroker was set to, in 1/64 of a pixel; 0 where
    /// there is no outline.
    pub closed spec fn outline_radius(&self) -> i64 {
        self.outline_radius
    }

    /// `r` is what this renderer may give for `codepoint`.
    pub open spec fn may_render(&self, codepoint: usize, r: Result<RenderedGlyph, RasterError>) -> bool {
        may_give(self.has_outline(), codepoint, r)
    }

    /// A renderer for `face` that draws no outline.
    pub fn new(library: &'a freetype::Library, face: &'a freetype::Face) -> (r: Renderer<'a>)
        ensures
            !r.has_outline(),
            r.outline_width() == 0,
            r.outline_radius() == 0,
    {
        Renderer { library, face, outline_stroker: None, outline_width: 0, outline_radius: 0 }
    }

    /// Sets the width of the outline in pixels. A width of 0 or less turns
    /// the outline off, and that cannot fail. A width above 0 sets up a
    /// stroker with round caps and joins and a radius of 64 units for each
    /// pixel of the width; if the width is too large for the engine's units,
    /// or the engine gives no stroker, the result is `StrokeFailed` and the
    /// renderer is as before.
    pub fn set_outline(&mut self, width: isize) -> (r: Result<(), RasterError>)
        ensures
            width <= 0 ==> r.is_ok(),
            width > 0 && spec_stroke_radius(width).is_none() ==> r.is_err(),
            match r {
                Ok(_) => {
                    &&& final(self).has_outline() == (width > 0)
                    &&& final(self).outline_width() == width
                    &&& final(self).outline_radius() == (if width > 0 {
                        width * 64
                    } else {
                        0
                    })
                },
                Err(e) => {
                    &&& e == RasterError::StrokeFailed
                    &&& width > 0
                    &&& final(self).has_outline() == old(self).has_outline()
                    &&& final(self).outline_width() == old(self).outline_width()
                    &&& final(self).outline_radius() == old(self).outline_radius()
                },
            },
    {
        if width > 0 {
            let radius: i64 = match stroke_radius(width) {
                Some(radius) => radius,
                None => {
                    return Err(RasterError::StrokeFailed);
                },
            };
            match library_new_stroker(self.library) {
                Ok(stroker) => {
                    self.outline_radius = radius;
                    stroker_set_round(&stroker, self.outline_radius, 0);
                    self.outline_stroker = Some(stroker);
                    self.outline_width = width;
                    Ok(())
                },
                Err(_) => Err(RasterError::StrokeFailed),
            }
        } else {
            self.outline_stroker = None;
            self.outline_width = width;
            self.outline_radius = 0;
            Ok(())
        }
    }

    /// The vertical metrics of the face at its current size, if the engine
    /// has a size for it.
    pub fn line_metrics(&self) -> (r: Option<LineMetrics>) {
        face_size_metrics(self.face)
    }

    /// Asks the engine for the glyph of `codepoint`: loads it, strokes it if
    /// an outline is set, and rasterizes what there is.
    fn ask(&self, codepoint: usize) -> (answer: EngineAnswer)
        ensures
            may_answer(self.has_outline(), answer),
    {
        match face_load_char(self.face, codepoint) {
            Ok(_) => {},
            Err(_) => {
                return EngineAnswer::NotLoaded;
            },
        }
        let glyph = match face_get_glyph(self.face) {
            Ok(glyph) => glyph,
            Err(_) => {
                return EngineAnswer::NotLoaded;
            },
        };
        let outline: Option<EngineGlyph> = match &self.outline_stroker {
            Some(stroker) => {
                let border = match glyph_stroke_border(&glyph, stroker) {
                    Ok(border) => border,
                    Err(_) => {
                        return EngineAnswer::NotStroked;
                    },
                };
                match rasterize(&border) {
                    Some(outline) => Some(outline),
                    None => {
                        return EngineAnswer::NotRasterized;
                    },
                }
            },
            None => None,
        };
        match rasterize(&glyph) {
            Some(fill) => EngineAnswer::Rasterized { outline, fill },
            None => EngineAnswer::NotRasterized,
        }
    }

    /// Rasterizes `codepoint`.
    ///
    /// The glyph is loaded from the face (`GlyphNotFound` if the engine
    /// refuses), stroked if an outline is set (`StrokeFailed`), and each
    /// outline is turned into a coverage bitmap (`RasterFailed`; a glyph that
    /// the face holds as a bitmap is not rasterized again). What the engine
    /// gave is then assembled; `CompositeFailed` tells that it did not fit
    /// together. Without an outline nothing is stroked, the glyph has a
    /// single layer, and `StrokeFailed` cannot come.
    pub fn render(&self, codepoint: usize) -> (r: Result<RenderedGlyph, RasterError>)
        ensures
            self.may_render(codepoint, r),
            match r {
                Ok(glyph) => glyph.codepoint == codepoint && glyph.image.well_formed()
                    && glyph.image.planes@.len() == (if self.has_outline() {
                    2nat
                } else {
                    1nat
                }),
                Err(e) => e != RasterError::EncodeFailed && e != RasterError::IoFailed && (e
                    == RasterError::StrokeFailed ==> self.has_outline()),
            },
    {
        let answer = self.ask(codepoint);
        let ghost asked = answer;
        let r = glyph_from(codepoint, answer);
        assert(is_outcome(codepoint, asked, r));
        r
    }
}

} // verus!
