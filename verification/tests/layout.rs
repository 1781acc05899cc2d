use font_atlas::error::RasterError;
use font_atlas::compositor::CoverageImage;
use font_atlas::glyph::RenderedGlyph;
use font_atlas::glyphs::{chars_of, layout, take_rendered, Cell, GlyphInfo, Glyphs, Measure};
use font_atlas::glyph::LineMetrics;

fn glyph(codepoint: char, width: u32, height: u32) -> Cell {
    Cell::Glyph(Measure {
        codepoint: codepoint as usize,
        width,
        height,
        xoffset: 1,
        yoffset: 9,
        xadvance: 12,
    })
}

#[test]
fn chars_of_keeps_every_character() {
    assert_eq!(chars_of("A\nB"), vec!['A', '\n', 'B']);
    assert_eq!(chars_of(""), Vec::<char>::new());
    assert_eq!(chars_of("\u{e9}\u{4e16}x"), vec!['\u{e9}', '\u{4e16}', 'x']);
}

#[test]
fn line_break_starts_a_new_row() {
    let cells = vec![glyph('A', 10, 14), Cell::LineBreak, glyph('B', 8, 11)];
    let info = layout(&cells, 2).unwrap();
    assert_eq!(info.len(), 2);
    assert_eq!(info[0].codepoint, 65);
    assert_eq!((info[0].x, info[0].y), (2, 2));
    assert_eq!(info[1].codepoint, 66);
    assert_eq!(info[1].x, 2);
    assert_eq!(info[1].y, 2 + 14 + 2);
}

#[test]
fn glyphs_of_a_row_go_from_left_to_right() {
    let cells = vec![glyph('a', 10, 5), glyph('b', 7, 20), glyph('c', 1, 3), Cell::LineBreak, glyph('d', 4, 4)];
    let info = layout(&cells, 3).unwrap();
    assert_eq!(
        info,
        vec![
            GlyphInfo { codepoint: 97, x: 3, y: 3, width: 10, height: 5, xoffset: 1, yoffset: 9, xadvance: 12 },
            GlyphInfo { codepoint: 98, x: 16, y: 3, width: 7, height: 20, xoffset: 1, yoffset: 9, xadvance: 12 },
            GlyphInfo { codepoint: 99, x: 26, y: 3, width: 1, height: 3, xoffset: 1, yoffset: 9, xadvance: 12 },
            GlyphInfo { codepoint: 100, x: 3, y: 26, width: 4, height: 4, xoffset: 1, yoffset: 9, xadvance: 12 },
        ]
    );
}

#[test]
fn empty_rows_take_one_padding_each() {
    let cells = vec![Cell::LineBreak, Cell::LineBreak, glyph('x', 5, 5)];
    let info = layout(&cells, 4).unwrap();
    assert_eq!((info[0].x, info[0].y), (4, 12));
}

#[test]
fn row_height_is_forgotten_after_a_line_break() {
    let cells = vec![glyph('a', 1, 30), Cell::LineBreak, glyph('b', 1, 2), Cell::LineBreak, glyph('c', 1, 1)];
    let info = layout(&cells, 1).unwrap();
    assert_eq!(info[0].y, 1);
    assert_eq!(info[1].y, 32);
    assert_eq!(info[2].y, 35);
}

#[test]
fn repeated_characters_are_placed_each_time() {
    let cells = vec![glyph('a', 6, 6), glyph('a', 6, 6), glyph('a', 6, 6)];
    let info = layout(&cells, 0).unwrap();
    assert_eq!(info.len(), 3);
    assert_eq!((info[0].x, info[1].x, info[2].x), (0, 6, 12));
}

#[test]
fn blank_glyph_is_placed_and_takes_only_the_padding() {
    let cells = vec![glyph(' ', 0, 0), glyph('a', 3, 3)];
    let info = layout(&cells, 2).unwrap();
    assert_eq!((info[0].x, info[0].width, info[0].height), (2, 0, 0));
    assert_eq!(info[1].x, 4);
}

#[test]
fn nothing_to_place() {
    assert_eq!(layout(&Vec::new(), 2).unwrap(), Vec::new());
    assert_eq!(layout(&vec![Cell::LineBreak], 2).unwrap(), Vec::new());
}

#[test]
fn layout_twice_gives_the_same_placements() {
    let cells = vec![glyph('A', 10, 14), Cell::LineBreak, glyph('B', 8, 11), glyph('C', 9, 12)];
    assert_eq!(layout(&cells, 2).unwrap(), layout(&cells, 2).unwrap());
}

#[test]
fn cursor_beyond_the_coordinates_is_a_failure() {
    let cells = vec![glyph('a', u32::MAX, 1)];
    assert!(matches!(layout(&cells, 1), Err(RasterError::CompositeFailed)));
    let cells = vec![glyph('a', 1, u32::MAX), Cell::LineBreak];
    assert!(matches!(layout(&cells, 1), Err(RasterError::CompositeFailed)));
    let cells = vec![glyph('a', u32::MAX - 1, 1)];
    assert!(matches!(layout(&cells, 1), Err(RasterError::CompositeFailed)));
    let cells = vec![glyph('a', u32::MAX - 2, 1)];
    assert!(matches!(layout(&cells, 1), Ok(_)));
    let cells = vec![Cell::LineBreak];
    assert!(matches!(layout(&cells, u32::MAX), Err(RasterError::CompositeFailed)));
}

#[test]
fn descriptor_of_an_atlas() {
    let info = vec![
        GlyphInfo { codepoint: 65, x: 2, y: 2, width: 10, height: 12, xoffset: -1, yoffset: 11, xadvance: 11 },
        GlyphInfo { codepoint: 66, x: 14, y: 2, width: 9, height: 12, xoffset: 1, yoffset: -4, xadvance: 10 },
    ];
    let metrics = LineMetrics { height: 18 * 64 + 63, ascender: 14 * 64 + 1 };
    let font = Glyphs::new().font_file(&info, String::from("atlas.png"), 16, 2, 256, 128, metrics);
    assert_eq!(font.info.face, "");
    assert_eq!(font.info.size, 16);
    assert!(!font.info.bold && !font.info.italic && !font.info.unicode && !font.info.smooth && !font.info.aa);
    assert_eq!(font.info.charset, "");
    assert_eq!(font.info.stretch_h, 100);
    assert_eq!(font.info.padding, [2, 2, 2, 2]);
    assert_eq!(font.info.spacing, [0, 0]);
    assert_eq!(font.info.outline, 0);
    assert_eq!(font.common.line_height, 18);
    assert_eq!(font.common.base, 14);
    assert_eq!((font.common.scale_w, font.common.scale_h), (256, 128));
    assert_eq!(font.common.pages, 1);
    assert!(!font.common.packed);
    assert_eq!(
        (font.common.alpha_channel, font.common.red_channel, font.common.green_channel, font.common.blue_channel),
        (0, 0, 0, 0)
    );
    assert_eq!(font.page.id, 0);
    assert_eq!(font.page.file, "atlas.png");
    assert_eq!(font.chars.len(), 2);
    assert_eq!(font.chars[0].id, 65);
    assert_eq!((font.chars[0].x, font.chars[0].y), (2, 2));
    assert_eq!((font.chars[0].width, font.chars[0].height), (10, 12));
    assert_eq!(font.chars[0].xoffset, -1);
    assert_eq!(font.chars[0].yoffset, 18 - 11);
    assert_eq!(font.chars[0].xadvance, 11);
    assert_eq!((font.chars[0].page, font.chars[0].chnl), (0, 15));
    assert_eq!(font.chars[1].id, 66);
    assert_eq!(font.chars[1].yoffset, 18 + 4);

    let mut out = Vec::new();
    font.write(&mut out);
    assert_eq!(
        String::from_utf8(out).unwrap(),
        "info face= size=16 bold=0 italic=0 charset= unicode=0 stretchH=100 smooth=0 aa=0 padding=2,2,2,2 spacing=0,0 outline=0\n\
         common lineHeight=18 base=14 scaleW=256 scaleH=128 pages=1 packed=0 alphaChnl=0 redChnl=0 greenChnl=0 blueChnl=0\n\
         page id=0 file=atlas.png\n\
         chars count=2\n\
         char id=65 x=2 y=2 width=10 height=12 xoffset=-1 yoffset=7 xadvance=11 page=0 chnl=15\n\
         char id=66 x=14 y=2 width=9 height=12 xoffset=1 yoffset=22 xadvance=10 page=0 chnl=15\n"
    );
}

#[test]
fn base_below_zero_is_rounded_towards_zero() {
    let metrics = LineMetrics { height: 64, ascender: -65 };
    let font = Glyphs::new().font_file(&Vec::new(), String::new(), 1, 0, 1, 1, metrics);
    assert_eq!(font.common.base, -1);
    assert_eq!(font.common.line_height, 1);
    let metrics = LineMetrics { height: 63, ascender: -63 };
    let font = Glyphs::new().font_file(&Vec::new(), String::new(), 1, 0, 1, 1, metrics);
    assert_eq!(font.common.base, 0);
    assert_eq!(font.common.line_height, 0);
}

#[test]
fn placements_inside_and_beyond_the_canvas() {
    let cells = vec![glyph('a', 10, 5), glyph('b', 7, 20), Cell::LineBreak, glyph('c', 4, 4)];
    let info = layout(&cells, 3).unwrap();
    let packer = Glyphs::new();
    // The row ends at x = 23, the second row at y = 30.
    assert!(packer.fits_canvas(&info, 23, 30));
    assert!(packer.fits_canvas(&info, 100, 100));
    assert!(!packer.fits_canvas(&info, 22, 30));
    assert!(!packer.fits_canvas(&info, 23, 29));
    assert!(!packer.fits_canvas(&info, 0, 0));
    assert!(packer.fits_canvas(&Vec::new(), 0, 0));
}

#[test]
fn rendered_glyph_is_taken_with_its_measure() {
    let mut cells = vec![Cell::LineBreak];
    let mut glyphs = Vec::new();
    let glyph = RenderedGlyph {
        image: CoverageImage { width: 2, height: 3, planes: vec![vec![0; 6]] },
        codepoint: 70,
        advance: (4, 5),
        offset: (-1, 7),
    };
    assert!(take_rendered(&mut cells, &mut glyphs, Ok(glyph)).is_ok());
    assert_eq!(
        cells,
        vec![
            Cell::LineBreak,
            Cell::Glyph(Measure { codepoint: 70, width: 2, height: 3, xoffset: -1, yoffset: 7, xadvance: 4 }),
        ]
    );
    assert_eq!(glyphs.len(), 1);
    assert_eq!(glyphs[0].codepoint, 70);
    assert_eq!(glyphs[0].image.planes, vec![vec![0u8; 6]]);
}

#[test]
fn error_of_the_renderer_is_handed_on() {
    let errors = [
        RasterError::GlyphNotFound,
        RasterError::StrokeFailed,
        RasterError::RasterFailed,
        RasterError::CompositeFailed,
    ];
    for error in errors {
        let mut cells = vec![Cell::LineBreak];
        let mut glyphs = Vec::new();
        assert_eq!(take_rendered(&mut cells, &mut glyphs, Err(error)), Err(error));
        assert_eq!(cells, vec![Cell::LineBreak]);
        assert!(glyphs.is_empty());
    }
}
