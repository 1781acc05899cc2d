//! What one rendering pass is made from: the face, the size, the outline and
//! the text. Colours are no part of it; they are applied where the glyphs are
//! painted.

use vstd::prelude::*;
use crate::glyph::face_set_char_size;

verus! {

/// The height of a character of `font_size` points in 1/64 of a point, as the
/// engine takes it; none where the machine's integers do not hold it.
pub open spec fn spec_char_height(font_size: isize) -> Option<isize> {
    if isize::MIN <= font_size * 64 <= isize::MAX {
        Some((font_size * 64) as isize)
    } else {
        None
    }
}

/// The height that is handed to the engine for a font of `font_size`
/// points: 64 units for each point.
pub fn char_height(font_size: isize) -> (r: Option<isize>)
    ensures
        r == spec_char_height(font_size),
{
    let wide: i128 = font_size as i128 * 64;
    if wide < isize::MIN as i128 || wide > isize::MAX as i128 {
        None
    } else {
        Some(wide as isize)
    }
}

/// The size of the font, in points, that a pass starts from.
pub const DEFAULT_FONT_SIZE: isize = 128;

/// The vertical resolution, in dots per inch, at which a face is sized.
pub const RESOLUTION: u32 = 64;

/// The settings of a rendering pass. The pass reads them and changes nothing.
pub struct RenderSettings<'a> {
    pub library: &'a freetype::Library,
    pub face: &'a freetype::Face,
    /// The width of the outline in pixels; 0 for none.
    pub border_width: isize,
    /// The size of the font in points.
    pub font_size: isize,
    /// The distance between glyphs, and from the edges of the atlas, in pixels.
    pub letter_padding: isize,
    pub text: String,
}

impl<'a> RenderSettings<'a> {
    /// The settings are the ones that a new pass starts from: an outline of 4
    /// pixels, a size of 128 points, a padding of 2 pixels and a sample text.
    pub open spec fn is_default(&self) -> bool {
        &&& self.border_width == 4
        &&& self.font_size == DEFAULT_FONT_SIZE
        &&& self.letter_padding == 2
        &&& self.text@ == "AaBbCcDd"@
    }

    /// The default settings for `face`, which is set to the default size;
    /// `None` where the engine refuses that size.
    pub fn new(library: &'a freetype::Library, face: &'a freetype::Face) -> (r: Option<RenderSettings<'a>>)
        ensures
            match r {
                Some(settings) => settings.is_default() && settings.library == library && settings.face
                    == face,
                None => true,
            },
    {
        let height = match char_height(DEFAULT_FONT_SIZE) {
            Some(height) => height,
            None => {
                return None;
            },
        };
        match face_set_char_size(face, 0, height, 0, RESOLUTION) {
            Ok(_) => Some(
                RenderSettings {
                    library,
                    face,
                    border_width: 4,
                    font_size: DEFAULT_FONT_SIZE,
                    letter_padding: 2,
                    text: "AaBbCcDd".to_owned(),
                },
            ),
            Err(_) => None,
        }
    }

    /// Back to the default settings, for the same face. The result tells
    /// whether the engine took the default size.
    pub fn reset(&mut self) -> (sized: bool)
        ensures
            final(self).is_default(),
            final(self).library == old(self).library,
            final(self).face == old(self).face,
    {
        self.border_width = 4;
        self.font_size = DEFAULT_FONT_SIZE;
        self.letter_padding = 2;
        self.text = "AaBbCcDd".to_owned();
        match char_height(DEFAULT_FONT_SIZE) {
            Some(height) => face_set_char_size(self.face, 0, height, 0, RESOLUTION).is_ok(),
            None => false,
        }
    }
}

} // verus!
