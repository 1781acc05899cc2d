use font_atlas::bbox::BBox;
use font_atlas::error::RasterError;
use font_atlas::glyphs::Glyphs;
use font_atlas::glyph::{
    assemble, glyph_from, is_outline_format, sixty_fourths, stroke_radius, to_whole_pixels, EngineAnswer,
    EngineGlyph, Renderer, OUTLINE_FORMAT,
};

const FONT: &str = "/usr/share/fonts/truetype/dejavu/DejaVuSans.ttf";

fn bbox(x_min: i64, y_min: i64, x_max: i64, y_max: i64) -> BBox {
    BBox { x_min, y_min, x_max, y_max }
}

#[test]
fn advance_drops_the_fraction() {
    assert_eq!(to_whole_pixels(0), 0);
    assert_eq!(to_whole_pixels(65535), 0);
    assert_eq!(to_whole_pixels(65536), 1);
    assert_eq!(to_whole_pixels(11 * 65536 + 40000), 11);
    assert_eq!(to_whole_pixels(-1), -1);
    assert_eq!(to_whole_pixels(-65536), -1);
    assert_eq!(to_whole_pixels(-65537), -2);
}

fn engine_glyph(coverage: Vec<u8>, bbox: BBox, advance_x: isize, advance_y: isize) -> EngineGlyph {
    EngineGlyph { coverage, bbox, advance_x, advance_y }
}

#[test]
fn assemble_fill_alone() {
    let fill = engine_glyph(vec![1, 2, 3, 4, 5, 6], bbox(1, -2, 4, 0), 9 * 65536 + 1, 0);
    let glyph = assemble(65, None, fill).unwrap();
    assert_eq!(glyph.codepoint, 65);
    assert_eq!((glyph.image.width, glyph.image.height), (3, 2));
    assert_eq!(glyph.image.planes, vec![vec![1u8, 2, 3, 4, 5, 6]]);
    assert_eq!(glyph.advance, (9, 0));
    assert_eq!(glyph.offset, (1, 0));
}

#[test]
fn assemble_outline_and_fill() {
    let outline = engine_glyph(vec![7u8; 20], bbox(-1, -3, 4, 1), 77 * 65536, 88 * 65536);
    let fill = engine_glyph(vec![1, 2, 3, 4, 5, 6], bbox(0, -2, 3, 0), 5 * 65536, 2 * 65536);
    let glyph = assemble(66, Some(outline), fill).unwrap();
    assert_eq!((glyph.image.width, glyph.image.height), (5, 4));
    assert_eq!(glyph.image.planes.len(), 2);
    assert_eq!(glyph.image.planes[0], vec![7u8; 20]);
    assert_eq!(
        glyph.image.planes[1],
        vec![0, 0, 0, 0, 0, 0, 1, 2, 3, 0, 0, 4, 5, 6, 0, 0, 0, 0, 0, 0]
    );
    // The advance is the one of the fill, whatever the outline has.
    assert_eq!(glyph.advance, (5, 2));
    // The offset is taken from the outline, which is painted first.
    assert_eq!(glyph.offset, (-1, 1));
}

#[test]
fn assemble_blank_glyph() {
    let fill = engine_glyph(Vec::new(), bbox(0, 0, 0, 0), 8 * 65536, 0);
    let glyph = assemble(32, None, fill).unwrap();
    assert_eq!((glyph.image.width, glyph.image.height), (0, 0));
    assert_eq!(glyph.advance, (8, 0));
    assert_eq!(glyph.offset, (0, 0));
}

#[test]
fn assemble_refuses_what_does_not_fit() {
    let fill = engine_glyph(vec![1, 2, 3], bbox(0, 0, 2, 2), 0, 0);
    assert!(matches!(assemble(65, None, fill), Err(RasterError::CompositeFailed)));
    let outline = engine_glyph(vec![1], bbox(0, 0, 2, 2), 0, 0);
    let fill = engine_glyph(vec![1, 2, 3, 4], bbox(0, 0, 2, 2), 0, 0);
    assert!(matches!(assemble(65, Some(outline), fill), Err(RasterError::CompositeFailed)));
}

#[test]
fn each_refusal_of_the_engine_has_its_error() {
    assert!(matches!(glyph_from(65, EngineAnswer::NotLoaded), Err(RasterError::GlyphNotFound)));
    assert!(matches!(glyph_from(65, EngineAnswer::NotStroked), Err(RasterError::StrokeFailed)));
    assert!(matches!(glyph_from(65, EngineAnswer::NotRasterized), Err(RasterError::RasterFailed)));
}

#[test]
fn rasterized_answer_is_assembled() {
    let fill = engine_glyph(vec![9, 8], bbox(0, 0, 2, 1), 3 * 65536, 0);
    let answer = EngineAnswer::Rasterized { outline: None, fill };
    let glyph = glyph_from(120, answer).unwrap();
    assert_eq!(glyph.codepoint, 120);
    assert_eq!(glyph.image.planes, vec![vec![9u8, 8]]);
    assert_eq!(glyph.advance, (3, 0));
    let fill = engine_glyph(vec![9], bbox(0, 0, 2, 1), 0, 0);
    let answer = EngineAnswer::Rasterized { outline: None, fill };
    assert!(matches!(glyph_from(120, answer), Err(RasterError::CompositeFailed)));
}

#[test]
fn engine_glyph_as_layer() {
    let layer = engine_glyph(vec![1, 2], bbox(0, 0, 1, 2), 5, 6).into_layer();
    assert_eq!(layer.coverage, vec![1u8, 2]);
    assert_eq!(layer.bbox, bbox(0, 0, 1, 2));
}

#[test]
fn only_an_outline_is_rasterized() {
    assert_eq!(OUTLINE_FORMAT, u32::from_be_bytes(*b"outl"));
    assert_eq!(OUTLINE_FORMAT, freetype::ffi::FT_GLYPH_FORMAT_OUTLINE);
    assert!(is_outline_format(freetype::ffi::FT_GLYPH_FORMAT_OUTLINE));
    assert!(!is_outline_format(freetype::ffi::FT_GLYPH_FORMAT_BITMAP));
    assert!(!is_outline_format(freetype::ffi::FT_GLYPH_FORMAT_COMPOSITE));
    assert!(!is_outline_format(0));
}

#[test]
fn lengths_in_sixty_fourths() {
    assert_eq!(sixty_fourths(0), Some(0));
    assert_eq!(sixty_fourths(4), Some(256));
    assert_eq!(sixty_fourths(-3), Some(-192));
    assert_eq!(sixty_fourths((i64::MAX / 64) as isize), Some(i64::MAX / 64 * 64));
    assert_eq!(sixty_fourths((i64::MAX / 64 + 1) as isize), None);
    assert_eq!(sixty_fourths(isize::MIN), None);
}

#[test]
fn radius_of_the_stroke() {
    assert_eq!(stroke_radius(1), Some(64));
    assert_eq!(stroke_radius(4), Some(256));
    assert_eq!(stroke_radius(0), None);
    assert_eq!(stroke_radius(-2), None);
    assert_eq!(stroke_radius((i64::MAX / 64) as isize), Some(i64::MAX / 64 * 64));
    assert_eq!(stroke_radius(isize::MAX), None);
}

#[test]
fn outline_width_of_zero_cannot_fail() {
    let library = freetype::Library::init().unwrap();
    let face = match library.new_face(FONT, 0) {
        Ok(face) => face,
        // Without the font file there is nothing to rasterize.
        Err(_) => return,
    };
    let mut renderer = Renderer::new(&library, &face);
    assert!(renderer.set_outline(0).is_ok());
    assert!(renderer.set_outline(-5).is_ok());
    assert!(renderer.set_outline(3).is_ok());
    assert!(renderer.set_outline(0).is_ok());
    assert!(matches!(renderer.set_outline(isize::MAX), Err(RasterError::StrokeFailed)));
}

#[test]
fn render_a_letter_without_outline() {
    let library = freetype::Library::init().unwrap();
    let face = match library.new_face(FONT, 0) {
        Ok(face) => face,
        // Without the font file there is nothing to rasterize.
        Err(_) => return,
    };
    face.set_char_size(0, 32 * 64, 0, 64).unwrap();
    let renderer = Renderer::new(&library, &face);
    let glyph = renderer.render('A' as usize).unwrap();
    assert_eq!(glyph.codepoint, 65);
    assert_eq!(glyph.image.planes.len(), 1);
    assert!(glyph.image.width > 0 && glyph.image.height > 0);
    assert_eq!(glyph.image.planes[0].len(), (glyph.image.width * glyph.image.height) as usize);
    assert!(glyph.image.planes[0].iter().any(|v| *v == 255));
    assert!(glyph.advance.0 > 0);
    assert_eq!(glyph.advance.1, 0);
    let again = renderer.render('A' as usize).unwrap();
    assert_eq!(again.image.planes, glyph.image.planes);
    assert_eq!((again.advance, again.offset), (glyph.advance, glyph.offset));
}

#[test]
fn render_a_letter_with_outline() {
    let library = freetype::Library::init().unwrap();
    let face = match library.new_face(FONT, 0) {
        Ok(face) => face,
        // Without the font file there is nothing to rasterize.
        Err(_) => return,
    };
    face.set_char_size(0, 32 * 64, 0, 64).unwrap();
    let mut renderer = Renderer::new(&library, &face);
    let plain = renderer.render('A' as usize).unwrap();
    renderer.set_outline(2).unwrap();
    let glyph = renderer.render('A' as usize).unwrap();
    assert_eq!(glyph.image.planes.len(), 2);
    assert!(glyph.image.width > plain.image.width);
    assert!(glyph.image.height > plain.image.height);
    let pixels = (glyph.image.width * glyph.image.height) as usize;
    assert_eq!(glyph.image.planes[0].len(), pixels);
    assert_eq!(glyph.image.planes[1].len(), pixels);
    // The fill is the plain glyph, moved to its place inside the outline.
    let covered: usize = glyph.image.planes[1].iter().filter(|v| **v > 0).count();
    let plain_covered: usize = plain.image.planes[0].iter().filter(|v| **v > 0).count();
    assert_eq!(covered, plain_covered);
    // The outline does not change the advance.
    assert_eq!(glyph.advance, plain.advance);
}

#[test]
fn render_a_space() {
    let library = freetype::Library::init().unwrap();
    let face = match library.new_face(FONT, 0) {
        Ok(face) => face,
        // Without the font file there is nothing to rasterize.
        Err(_) => return,
    };
    face.set_char_size(0, 32 * 64, 0, 64).unwrap();
    let renderer = Renderer::new(&library, &face);
    let glyph = renderer.render(' ' as usize).unwrap();
    assert_eq!(glyph.image.width * glyph.image.height, 0);
    assert!(glyph.advance.0 > 0);
}

#[test]
fn pack_a_text_of_two_rows() {
    let library = freetype::Library::init().unwrap();
    let face = match library.new_face(FONT, 0) {
        Ok(face) => face,
        // Without the font file there is nothing to rasterize.
        Err(_) => return,
    };
    face.set_char_size(0, 32 * 64, 0, 64).unwrap();
    let renderer = Renderer::new(&library, &face);
    let (info, glyphs) = Glyphs::new().pack(&renderer, "A\nB", 2).unwrap();
    assert_eq!(info.len(), 2);
    assert_eq!(glyphs.len(), 2);
    assert_eq!((info[0].codepoint, info[1].codepoint), (65, 66));
    assert_eq!((info[0].x, info[0].y), (2, 2));
    assert_eq!(info[1].x, 2);
    assert_eq!(info[1].y, 2 + info[0].height + 2);
    assert_eq!(info[0].width, glyphs[0].image.width);
    assert_eq!(info[0].height, glyphs[0].image.height);
    assert_eq!(info[0].xadvance, glyphs[0].advance.0);
    assert_eq!((info[0].xoffset, info[0].yoffset), glyphs[0].offset);

    let (again, _) = Glyphs::new().pack(&renderer, "A\nB", 2).unwrap();
    assert_eq!(again, info);

    let font = Glyphs::new().describe(&renderer, &info, String::from("a.png"), 32, 2, 64, 64).unwrap();
    assert_eq!(font.chars.len(), 2);
    assert!(font.common.line_height > 0);
    assert_eq!(font.chars[0].yoffset, font.common.line_height as i32 - info[0].yoffset);
}

#[test]
fn pack_an_empty_text() {
    let library = freetype::Library::init().unwrap();
    let face = match library.new_face(FONT, 0) {
        Ok(face) => face,
        // Without the font file there is nothing to rasterize.
        Err(_) => return,
    };
    let renderer = Renderer::new(&library, &face);
    let (info, glyphs) = Glyphs::new().pack(&renderer, "\n\n", 2).unwrap();
    assert!(info.is_empty());
    assert!(glyphs.is_empty());
}
