//! A glyph painted in one colour, without blending: every covered pixel takes
//! the colour, with its coverage as alpha.

use vstd::prelude::*;
use crate::bbox::BBox;
use crate::error::RasterError;
use crate::glyph::{
    bitmap_glyph_buffer, bitmap_glyph_rows, bitmap_glyph_width, face_get_glyph, face_load_char,
    glyph_cbox, glyph_format, glyph_stroke_border, glyph_to_bitmap, is_outline_format,
    library_new_stroker, narrow, sixty_fourths, spec_sixty_fourths, stroker_set_round,
};

verus! {

/// A colour of eight bits a channel.
#[derive(Clone, Copy, Debug, PartialEq, Eq, Structural)]
pub struct Color {
    pub red: u8,
    pub green: u8,
    pub blue: u8,
}

/// An image of four bytes a pixel, in the order blue, green, red, alpha, its
/// rows one after the other from the top, each `stride` bytes long.
pub struct Surface {
    pub data: Vec<u8>,
    pub width: i32,
    pub height: i32,
    pub stride: i32,
}

/// Channel `channel` (0 blue, 1 green, 2 red, 3 alpha) of a pixel of coverage
/// `value` painted in `color`: the coverage is the alpha; a covered pixel has
/// the colour, an uncovered one is 0 throughout.
pub open spec fn pixel_byte(color: Color, value: u8, channel: int) -> u8 {
    if channel == 3 {
        value
    } else if value == 0 {
        0
    } else if channel == 0 {
        color.blue
    } else if channel == 1 {
        color.green
    } else {
        color.red
    }
}

/// A bitmap of `width` by `rows` pixels can be painted: neither extent is
/// negative, the buffer has one byte for each pixel, and the image can be held.
pub open spec fn paintable(buffer: Seq<u8>, width: i32, rows: i32) -> bool {
    &&& 0 <= width
    &&& 0 <= rows
    &&& buffer.len() == width * rows
    &&& width * 4 <= i32::MAX
    &&& width * 4 * rows <= usize::MAX
}

impl Surface {
    /// The surface is the bitmap `buffer` painted in `color`.
    pub open spec fn painted_from(&self, buffer: Seq<u8>, width: i32, rows: i32, color: Color) -> bool {
        &&& self.width == width
        &&& self.height == rows
        &&& self.stride == width * 4
        &&& self.data@.len() == buffer.len() * 4
        &&& forall|pixel: int, channel: int|
            0 <= pixel < buffer.len() && 0 <= channel < 4 ==> #[trigger] self.data@[pixel * 4 + channel]
                == pixel_byte(color, buffer[pixel], channel)
    }
}

/// A glyph as an image of its own, with the lower left corner of its box.
pub struct RenderedGlyph {
    pub surface: Surface,
    pub origin: (i32, i32),
}

impl RenderedGlyph {
    /// The glyph is what the engine's answer makes: its bitmap `buffer` of
    /// `width` by `rows` pixels painted in `color`, and as origin the left and
    /// the lower edge of its box `cbox`.
    pub open spec fn made_from(&self, buffer: Seq<u8>, width: i32, rows: i32, cbox: BBox, color: Color) -> bool {
        &&& paintable(buffer, width, rows)
        &&& self.surface.painted_from(buffer, width, rows, color)
        &&& self.origin == (narrow(cbox.x_min), narrow(cbox.y_min))
    }

    /// Rasterizes `character` and paints it in `color`.
    ///
    /// `GlyphNotFound` where the engine cannot load the glyph, `RasterFailed`
    /// where the glyph is no outline or the engine cannot rasterize it,
    /// `CompositeFailed` where its bitmap cannot be painted.
    pub fn new(
        _library: &freetype::Library,
        face: &freetype::Face,
        character: usize,
        color: &Color,
    ) -> (r: Result<RenderedGlyph, RasterError>)
        ensures
            match r {
                Ok(glyph) => exists|buffer: Seq<u8>, width: i32, rows: i32, cbox: BBox|
                    #[trigger] glyph.made_from(buffer, width, rows, cbox, *color),
                Err(e) => e == RasterError::GlyphNotFound || e == RasterError::RasterFailed || e
                    == RasterError::CompositeFailed,
            },
    {
        match face_load_char(face, character) {
            Ok(_) => {},
            Err(_) => {
                return Err(RasterError::GlyphNotFound);
            },
        }
        let glyph = match face_get_glyph(face) {
            Ok(glyph) => glyph,
            Err(_) => {
                return Err(RasterError::GlyphNotFound);
            },
        };
        RenderedGlyph::paint(&glyph, color)
    }

    /// Rasterizes the outer border of `character`, `border_width` pixels
    /// wide with round caps and joins, and paints it in `color`.
    ///
    /// Fails as `new` does, and with `StrokeFailed` where the border cannot
    /// be drawn or the width is too large for the engine's units.
    pub fn new_outline(
        library: &freetype::Library,
        face: &freetype::Face,
        character: usize,
        color: &Color,
        border_width: isize,
    ) -> (r: Result<RenderedGlyph, RasterError>)
        ensures
            match r {
                Ok(glyph) => exists|buffer: Seq<u8>, width: i32, rows: i32, cbox: BBox|
                    #[trigger] glyph.made_from(buffer, width, rows, cbox, *color),
                Err(e) => e != RasterError::EncodeFailed && e != RasterError::IoFailed,
            },
            spec_sixty_fourths(border_width).is_none() ==> r.is_err(),
    {
        let radius: i64 = match sixty_fourths(border_width) {
            Some(radius) => radius,
            None => {
                return Err(RasterError::StrokeFailed);
            },
        };
        let stroker = match library_new_stroker(library) {
            Ok(stroker) => stroker,
            Err(_) => {
                return Err(RasterError::StrokeFailed);
            },
        };
        stroker_set_round(&stroker, radius, 0);
        match face_load_char(face, character) {
            Ok(_) => {},
            Err(_) => {
                return Err(RasterError::GlyphNotFound);
            },
        }
        let glyph = match face_get_glyph(face) {
            Ok(glyph) => glyph,
            Err(_) => {
                return Err(RasterError::GlyphNotFound);
            },
        };
        let border = match glyph_stroke_border(&glyph, &stroker) {
            Ok(border) => border,
            Err(_) => {
                return Err(RasterError::StrokeFailed);
            },
        };
        RenderedGlyph::paint(&border, color)
    }

    /// Rasterizes a loaded glyph and paints it.
    fn paint(loaded: &freetype::Glyph, color: &Color) -> (r: Result<RenderedGlyph, RasterError>)
        ensures
            match r {
                Ok(glyph) => exists|buffer: Seq<u8>, width: i32, rows: i32, cbox: BBox|
                    #[trigger] glyph.made_from(buffer, width, rows, cbox, *color),
                Err(e) => e == RasterError::RasterFailed || e == RasterError::CompositeFailed,
            },
    {
        if !is_outline_format(glyph_format(loaded)) {
            return Err(RasterError::RasterFailed);
        }
        let cbox = glyph_cbox(loaded);
        let bitmap = match glyph_to_bitmap(loaded) {
            Ok(bitmap) => bitmap,
            Err(_) => {
                return Err(RasterError::RasterFailed);
            },
        };
        let buffer = bitmap_glyph_buffer(&bitmap);
        let width = bitmap_glyph_width(&bitmap);
        let rows = bitmap_glyph_rows(&bitmap);
        let r = match RenderedGlyph::bitmap_glyph_to_surface(&buffer, width, rows, color) {
            Ok(surface) => Ok(
                RenderedGlyph {
                    surface,
                    origin: (
                        #[verifier::truncate]
                        (cbox.x_min as i32),
                        #[verifier::truncate]
                        (cbox.y_min as i32),
                    ),
                },
            ),
            Err(e) => Err(e),
        };
        proof {
            if r.is_ok() {
                assert(r.unwrap().made_from(buffer@, width, rows, cbox, *color));
            }
        }
        r
    }

    /// Paints a coverage bitmap in one colour.
    ///
    /// Succeeds exactly when the bitmap is paintable. Each pixel of the
    /// result then has the coverage as alpha and, where the coverage is
    /// above 0, the colour; the rows are `width * 4` bytes long.
    pub fn bitmap_glyph_to_surface(buffer: &Vec<u8>, width: i32, rows: i32, color: &Color) -> (r: Result<
        Surface,
        RasterError,
    >)
        ensures
            match r {
                Ok(surface) => paintable(buffer@, width, rows) && surface.painted_from(
                    buffer@,
                    width,
                    rows,
                    *color,
                ),
                Err(e) => e == RasterError::CompositeFailed && !paintable(buffer@, width, rows),
            },
    {
        if width < 0 || rows < 0 || width > i32::MAX / 4 {
            return Err(RasterError::CompositeFailed);
        }
        assert(width * rows <= 0x7fff_ffff * 0x7fff_ffff) by (nonlinear_arith)
            requires
                0 <= width <= 0x7fff_ffff,
                0 <= rows <= 0x7fff_ffff,
        ;
        let pixels: u128 = (width as u128) * (rows as u128);
        if buffer.len() as u128 != pixels || pixels * 4 > usize::MAX as u128 {
            proof {
                assert(width * 4 * rows == width * rows * 4) by (nonlinear_arith);
            }
            return Err(RasterError::CompositeFailed);
        }
        proof {
            assert(width * 4 * rows == width * rows * 4) by (nonlinear_arith);
        }
        let count: usize = buffer.len();
        let mut data: Vec<u8> = Vec::new();
        let mut i: usize = 0;
        while i < count
            invariant
                i <= count,
                count == buffer@.len(),
                count * 4 <= usize::MAX,
                data@.len() == i * 4,
                forall|pixel: int, channel: int|
                    0 <= pixel < i && 0 <= channel < 4 ==> #[trigger] data@[pixel * 4 + channel]
                        == pixel_byte(*color, buffer@[pixel], channel),
            decreases count - i,
        {
            let value: u8 = buffer[i];
            if value > 0 {
                data.push(color.blue);
                data.push(color.green);
                data.push(color.red);
            } else {
                data.push(0);
                data.push(0);
                data.push(0);
            }
            data.push(value);
            i += 1;
        }
        Ok(Surface { data, width, height: rows, stride: width * 4 })
    }
}

} // verus!
