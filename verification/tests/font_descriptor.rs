use font_atlas::decimal::{push_bytes, push_decimal, PrintWriter};
use font_atlas::font::{CharTag, CharsTag, CommonTag, FontFile, InfoTag, PageTag};

fn text_of(bytes: Vec<u8>) -> String {
    String::from_utf8(bytes).unwrap()
}

fn sample_info() -> InfoTag {
    InfoTag {
        face: String::from("Arial"),
        size: 32,
        bold: false,
        italic: true,
        charset: String::from(""),
        unicode: true,
        stretch_h: 100,
        smooth: true,
        aa: false,
        padding: [1, 2, 3, 4],
        spacing: [5, 6],
        outline: 7,
    }
}

fn sample_common() -> CommonTag {
    CommonTag {
        line_height: 40,
        base: -3,
        scale_w: 256,
        scale_h: 128,
        pages: 1,
        packed: false,
        alpha_channel: 0,
        red_channel: 4,
        green_channel: 255,
        blue_channel: 10,
    }
}

fn sample_char() -> CharTag {
    CharTag {
        id: 65,
        x: 0,
        y: 0,
        width: 10,
        height: 12,
        xoffset: -1,
        yoffset: 3,
        xadvance: 11,
        page: 0,
        chnl: 15,
    }
}

#[test]
fn decimal_digits_of_small_and_large_numbers() {
    let mut out = Vec::new();
    push_decimal(&mut out, 0);
    out.push(b' ');
    push_decimal(&mut out, 7);
    out.push(b' ');
    push_decimal(&mut out, 10);
    out.push(b' ');
    push_decimal(&mut out, 4294967295);
    out.push(b' ');
    push_decimal(&mut out, u64::MAX);
    assert_eq!(text_of(out), "0 7 10 4294967295 18446744073709551615");
}

#[test]
fn push_bytes_appends_after_what_is_there() {
    let mut out = vec![1u8, 2];
    push_bytes(&mut out, &[3, 4, 5]);
    assert_eq!(out, vec![1u8, 2, 3, 4, 5]);
    push_bytes(&mut out, &[]);
    assert_eq!(out, vec![1u8, 2, 3, 4, 5]);
}

#[test]
fn print_writer_writes_each_kind_of_value() {
    let mut out = PrintWriter::new(Vec::new());
    out.write_str("a=");
    out.write_string(&String::from("b\u{e9}"));
    out.write_str(" ");
    out.write_bool(true);
    out.write_bool(false);
    out.write_str(" ");
    out.write_u8(255);
    out.write_str(" ");
    out.write_i32(-2147483648);
    out.write_str(" ");
    out.write_i32(2147483647);
    out.write_str(" ");
    out.write_i32(0);
    out.write_str(" ");
    out.write_u32(4294967295);
    out.write_str(" ");
    out.write_usize(1234567);
    out.write_str(" ");
    out.write_u64(18446744073709551615);
    assert_eq!(
        text_of(out.into_bytes()),
        "a=b\u{e9} 10 255 -2147483648 2147483647 0 4294967295 1234567 18446744073709551615"
    );
}

#[test]
fn print_writer_goes_on_after_the_buffer() {
    let mut out = PrintWriter::new(vec![b'x']);
    out.write_u8(9);
    assert_eq!(out.into_bytes(), vec![b'x', b'9']);
}

#[test]
fn booleans_are_written_as_digits() {
    let mut out = PrintWriter::new(Vec::new());
    out.write_bool(true);
    out.write_bool(false);
    let text = text_of(out.into_bytes());
    assert_eq!(text, "10");
    assert!(!text.contains("true"));
    assert!(!text.contains("false"));
}

#[test]
fn info_line_is_exact() {
    let mut out = PrintWriter::new(Vec::new());
    sample_info().write_to(&mut out);
    assert_eq!(
        text_of(out.into_bytes()),
        "info face=Arial size=32 bold=0 italic=1 charset= unicode=1 stretchH=100 smooth=1 aa=0 padding=1,2,3,4 spacing=5,6 outline=7\n"
    );
}

#[test]
fn common_line_is_exact() {
    let mut out = PrintWriter::new(Vec::new());
    sample_common().write_to(&mut out);
    assert_eq!(
        text_of(out.into_bytes()),
        "common lineHeight=40 base=-3 scaleW=256 scaleH=128 pages=1 packed=0 alphaChnl=0 redChnl=4 greenChnl=255 blueChnl=10\n"
    );
}

#[test]
fn page_line_is_exact() {
    let mut out = PrintWriter::new(Vec::new());
    PageTag { id: 3, file: String::from("atlas.png") }.write_to(&mut out);
    assert_eq!(text_of(out.into_bytes()), "page id=3 file=atlas.png\n");
}

#[test]
fn page_file_is_written_without_quoting() {
    let mut out = PrintWriter::new(Vec::new());
    PageTag { id: 0, file: String::from("my atlas \"1\".png") }.write_to(&mut out);
    assert_eq!(text_of(out.into_bytes()), "page id=0 file=my atlas \"1\".png\n");
}

#[test]
fn chars_line_is_exact() {
    let mut out = PrintWriter::new(Vec::new());
    CharsTag { count: 95 }.write_to(&mut out);
    assert_eq!(text_of(out.into_bytes()), "chars count=95\n");
}

#[test]
fn char_line_is_exact() {
    let mut out = PrintWriter::new(Vec::new());
    sample_char().write_to(&mut out);
    assert_eq!(
        text_of(out.into_bytes()),
        "char id=65 x=0 y=0 width=10 height=12 xoffset=-1 yoffset=3 xadvance=11 page=0 chnl=15\n"
    );
}

#[test]
fn descriptor_with_one_glyph() {
    let font = FontFile {
        info: sample_info(),
        common: sample_common(),
        page: PageTag { id: 0, file: String::from("atlas.png") },
        chars: vec![sample_char()],
    };
    let mut out = Vec::new();
    font.write(&mut out);
    let text = text_of(out);
    let lines: Vec<&str> = text.split('\n').collect();
    assert_eq!(lines.len(), 6);
    assert_eq!(lines[5], "");
    assert!(lines[0].starts_with("info face=Arial "));
    assert!(lines[1].starts_with("common lineHeight=40 "));
    assert_eq!(lines[2], "page id=0 file=atlas.png");
    assert_eq!(lines[3], "chars count=1");
    assert_eq!(
        lines[4],
        "char id=65 x=0 y=0 width=10 height=12 xoffset=-1 yoffset=3 xadvance=11 page=0 chnl=15"
    );
    assert!(text.ends_with(
        "chars count=1\nchar id=65 x=0 y=0 width=10 height=12 xoffset=-1 yoffset=3 xadvance=11 page=0 chnl=15\n"
    ));
}

#[test]
fn descriptor_keeps_the_order_of_the_glyphs() {
    let mut second = sample_char();
    second.id = 33;
    second.x = 12;
    let mut third = sample_char();
    third.id = 1000;
    third.x = 24;
    let font = FontFile {
        info: sample_info(),
        common: sample_common(),
        page: PageTag { id: 0, file: String::from("a.png") },
        chars: vec![sample_char(), second, third],
    };
    let mut out = Vec::new();
    font.write(&mut out);
    let text = text_of(out);
    let lines: Vec<&str> = text.lines().collect();
    assert_eq!(lines.len(), 7);
    assert_eq!(lines[3], "chars count=3");
    assert!(lines[4].starts_with("char id=65 x=0 "));
    assert!(lines[5].starts_with("char id=33 x=12 "));
    assert!(lines[6].starts_with("char id=1000 x=24 "));
}

#[test]
fn descriptor_without_glyphs() {
    let font = FontFile {
        info: sample_info(),
        common: sample_common(),
        page: PageTag { id: 0, file: String::from("a.png") },
        chars: Vec::new(),
    };
    let mut out = Vec::new();
    font.write(&mut out);
    let text = text_of(out);
    assert!(text.ends_with("page id=0 file=a.png\nchars count=0\n"));
    assert_eq!(text.lines().count(), 4);
}

#[test]
fn descriptor_is_appended_to_the_sink() {
    let font = FontFile {
        info: sample_info(),
        common: sample_common(),
        page: PageTag { id: 0, file: String::from("a.png") },
        chars: Vec::new(),
    };
    let mut once = Vec::new();
    font.write(&mut once);
    let mut twice = vec![b'#', b'\n'];
    font.write(&mut twice);
    assert_eq!(&twice[..2], b"#\n");
    assert_eq!(&twice[2..], &once[..]);
}
