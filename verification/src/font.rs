//! The BMFont text descriptor: its five kinds of line and their exact text.
//!
//! Each line is a keyword followed by `key=value` pairs that are separated
//! by single spaces, and ends in a newline. Flags are written as `0` or `1`.
//! Strings are written as they are, without quoting or escaping.

use vstd::prelude::*;
use vstd::string::StringSliceAdditionalSpecFns;
use vstd::utf8::encode_utf8;
use crate::decimal::{decimal, flag_text, signed_decimal, PrintWriter};

verus! {

/// The UTF-8 bytes of a piece of fixed text.
pub open spec fn lit(text: &str) -> Seq<u8> {
    text.spec_bytes()
}

/// Appends fixed text. `base` is what the buffer held when the line began and
/// `line` what has been written of the line so far; the result is the line
/// after this piece.
fn put_text(out: &mut PrintWriter, base: Ghost<Seq<u8>>, line: Ghost<Seq<u8>>, text: &str) -> (next: Ghost<Seq<u8>>)
    requires
        old(out)@ == base@ + line@,
    ensures
        next@ == line@ + lit(text),
        final(out)@ == base@ + next@,
{
    out.write_str(text);
    assert(out@ =~= base@ + (line@ + lit(text)));
    Ghost(line@ + lit(text))
}

/// Appends a string value.
fn put_string(out: &mut PrintWriter, base: Ghost<Seq<u8>>, line: Ghost<Seq<u8>>, value: &String) -> (next: Ghost<Seq<u8>>)
    requires
        old(out)@ == base@ + line@,
    ensures
        next@ == line@ + encode_utf8(value@),
        final(out)@ == base@ + next@,
{
    out.write_string(value);
    assert(out@ =~= base@ + (line@ + encode_utf8(value@)));
    Ghost(line@ + encode_utf8(value@))
}

/// Appends the decimal digits of `value`.
fn put_value(out: &mut PrintWriter, base: Ghost<Seq<u8>>, line: Ghost<Seq<u8>>, value: u64) -> (next: Ghost<Seq<u8>>)
    requires
        old(out)@ == base@ + line@,
    ensures
        next@ == line@ + decimal(value as nat),
        final(out)@ == base@ + next@,
{
    out.write_u64(value);
    assert(out@ =~= base@ + (line@ + decimal(value as nat)));
    Ghost(line@ + decimal(value as nat))
}

/// Appends a key and a flag.
fn put_flag(out: &mut PrintWriter, base: Ghost<Seq<u8>>, line: Ghost<Seq<u8>>, key: &str, value: bool) -> (next: Ghost<Seq<u8>>)
    requires
        old(out)@ == base@ + line@,
    ensures
        next@ == line@ + lit(key) + flag_text(value),
        final(out)@ == base@ + next@,
{
    out.write_str(key);
    out.write_bool(value);
    assert(out@ =~= base@ + (line@ + lit(key) + flag_text(value)));
    Ghost(line@ + lit(key) + flag_text(value))
}

/// Appends a key and an unsigned 32-bit value.
fn put_u32(out: &mut PrintWriter, base: Ghost<Seq<u8>>, line: Ghost<Seq<u8>>, key: &str, value: u32) -> (next: Ghost<Seq<u8>>)
    requires
        old(out)@ == base@ + line@,
    ensures
        next@ == line@ + lit(key) + decimal(value as nat),
        final(out)@ == base@ + next@,
{
    out.write_str(key);
    out.write_u32(value);
    assert(out@ =~= base@ + (line@ + lit(key) + decimal(value as nat)));
    Ghost(line@ + lit(key) + decimal(value as nat))
}

/// Appends a key and an unsigned 8-bit value.
fn put_u8(out: &mut PrintWriter, base: Ghost<Seq<u8>>, line: Ghost<Seq<u8>>, key: &str, value: u8) -> (next: Ghost<Seq<u8>>)
    requires
        old(out)@ == base@ + line@,
    ensures
        next@ == line@ + lit(key) + decimal(value as nat),
        final(out)@ == base@ + next@,
{
    out.write_str(key);
    out.write_u8(value);
    assert(out@ =~= base@ + (line@ + lit(key) + decimal(value as nat)));
    Ghost(line@ + lit(key) + decimal(value as nat))
}

/// Appends a key and a signed 32-bit value.
fn put_i32(out: &mut PrintWriter, base: Ghost<Seq<u8>>, line: Ghost<Seq<u8>>, key: &str, value: i32) -> (next: Ghost<Seq<u8>>)
    requires
        old(out)@ == base@ + line@,
    ensures
        next@ == line@ + lit(key) + signed_decimal(value as int),
        final(out)@ == base@ + next@,
{
    out.write_str(key);
    out.write_i32(value);
    assert(out@ =~= base@ + (line@ + lit(key) + signed_decimal(value as int)));
    Ghost(line@ + lit(key) + signed_decimal(value as int))
}

/// A line that starts with `keyword`: nothing written yet but the keyword.
fn begin_line(out: &mut PrintWriter, keyword: &str) -> (r: (Ghost<Seq<u8>>, Ghost<Seq<u8>>))
    ensures
        r.0@ == old(out)@,
        r.1@ == lit(keyword),
        final(out)@ == r.0@ + r.1@,
{
    let base = Ghost(out@);
    out.write_str(keyword);
    (base, Ghost(lit(keyword)))
}

/// Face and rendering parameters: the `info` line.
pub struct InfoTag {
    pub face: String,
    pub size: u32,
    pub bold: bool,
    pub italic: bool,
    pub charset: String,
    pub unicode: bool,
    pub stretch_h: u32,
    pub smooth: bool,
    pub aa: bool,
    pub padding: [u32; 4],
    pub spacing: [u32; 2],
    pub outline: u32,
}

impl InfoTag {
    /// The text of the `info` line, with the newline that ends it.
    pub open spec fn spec_line(&self) -> Seq<u8> {
        lit("info face=") + encode_utf8(self.face@)
            + lit(" size=") + decimal(self.size as nat)
            + lit(" bold=") + flag_text(self.bold)
            + lit(" italic=") + flag_text(self.italic)
            + lit(" charset=") + encode_utf8(self.charset@)
            + lit(" unicode=") + flag_text(self.unicode)
            + lit(" stretchH=") + decimal(self.stretch_h as nat)
            + lit(" smooth=") + flag_text(self.smooth)
            + lit(" aa=") + flag_text(self.aa)
            + lit(" padding=") + decimal(self.padding[0] as nat)
            + lit(",") + decimal(self.padding[1] as nat)
            + lit(",") + decimal(self.padding[2] as nat)
            + lit(",") + decimal(self.padding[3] as nat)
            + lit(" spacing=") + decimal(self.spacing[0] as nat)
            + lit(",") + decimal(self.spacing[1] as nat)
            + lit(" outline=") + decimal(self.outline as nat)
            + lit("\n")
    }

    /// Appends the `info` line to `out`.
    pub fn write_to(&self, out: &mut PrintWriter)
        ensures
            final(out)@ == old(out)@ + self.spec_line(),
    {
        let (base, line) = begin_line(out, "info face=");
        let line = put_string(out, base, line, &self.face);
        let line = put_u32(out, base, line, " size=", self.size);
        let line = put_flag(out, base, line, " bold=", self.bold);
        let line = put_flag(out, base, line, " italic=", self.italic);
        let line = put_text(out, base, line, " charset=");
        let line = put_string(out, base, line, &self.charset);
        let line = put_flag(out, base, line, " unicode=", self.unicode);
        let line = put_u32(out, base, line, " stretchH=", self.stretch_h);
        let line = put_flag(out, base, line, " smooth=", self.smooth);
        let line = put_flag(out, base, line, " aa=", self.aa);
        let line = put_u32(out, base, line, " padding=", self.padding[0]);
        let line = put_u32(out, base, line, ",", self.padding[1]);
        let line = put_u32(out, base, line, ",", self.padding[2]);
        let line = put_u32(out, base, line, ",", self.padding[3]);
        let line = put_u32(out, base, line, " spacing=", self.spacing[0]);
        let line = put_u32(out, base, line, ",", self.spacing[1]);
        let line = put_u32(out, base, line, " outline=", self.outline);
        let line = put_text(out, base, line, "\n");
    }
}

/// Atlas-wide metrics: the `common` line.
pub struct CommonTag {
    pub line_height: u32,
    pub base: i32,
    pub scale_w: u32,
    pub scale_h: u32,
    pub pages: u32,
    pub packed: bool,
    pub alpha_channel: u8,
    pub red_channel: u8,
    pub green_channel: u8,
    pub blue_channel: u8,
}

impl CommonTag {
    /// The text of the `common` line, with the newline that ends it.
    pub open spec fn spec_line(&self) -> Seq<u8> {
        lit("common lineHeight=") + decimal(self.line_height as nat)
            + lit(" base=") + signed_decimal(self.base as int)
            + lit(" scaleW=") + decimal(self.scale_w as nat)
            + lit(" scaleH=") + decimal(self.scale_h as nat)
            + lit(" pages=") + decimal(self.pages as nat)
            + lit(" packed=") + flag_text(self.packed)
            + lit(" alphaChnl=") + decimal(self.alpha_channel as nat)
            + lit(" redChnl=") + decimal(self.red_channel as nat)
            + lit(" greenChnl=") + decimal(self.green_channel as nat)
            + lit(" blueChnl=") + decimal(self.blue_channel as nat)
            + lit("\n")
    }

    /// Appends the `common` line to `out`.
    pub fn write_to(&self, out: &mut PrintWriter)
        ensures
            final(out)@ == old(out)@ + self.spec_line(),
    {
        let (base, line) = begin_line(out, "common lineHeight=");
        let line = put_value(out, base, line, self.line_height as u64);
        let line = put_i32(out, base, line, " base=", self.base);
        let line = put_u32(out, base, line, " scaleW=", self.scale_w);
        let line = put_u32(out, base, line, " scaleH=", self.scale_h);
        let line = put_u32(out, base, line, " pages=", self.pages);
        let line = put_flag(out, base, line, " packed=", self.packed);
        let line = put_u8(out, base, line, " alphaChnl=", self.alpha_channel);
        let line = put_u8(out, base, line, " redChnl=", self.red_channel);
        let line = put_u8(out, base, line, " greenChnl=", self.green_channel);
        let line = put_u8(out, base, line, " blueChnl=", self.blue_channel);
        let line = put_text(out, base, line, "\n");
    }
}

/// The image file of one atlas page: the `page` line.
pub struct PageTag {
    pub id: u32,
    pub file: String,
}

impl PageTag {
    /// The text of the `page` line, with the newline that ends it.
    pub open spec fn spec_line(&self) -> Seq<u8> {
        lit("page id=") + decimal(self.id as nat)
            + lit(" file=") + encode_utf8(self.file@)
            + lit("\n")
    }

    /// Appends the `page` line to `out`.
    pub fn write_to(&self, out: &mut PrintWriter)
        ensures
            final(out)@ == old(out)@ + self.spec_line(),
    {
        let (base, line) = begin_line(out, "page id=");
        let line = put_value(out, base, line, self.id as u64);
        let line = put_text(out, base, line, " file=");
        let line = put_string(out, base, line, &self.file);
        let line = put_text(out, base, line, "\n");
    }
}

/// The text of the `chars` line for `count` glyphs, with the newline that ends it.
pub open spec fn chars_line(count: nat) -> Seq<u8> {
    lit("chars count=") + decimal(count) + lit("\n")
}

/// The number of `char` lines that follow: the `chars` line.
pub struct CharsTag {
    pub count: u32,
}

impl CharsTag {
    /// The text of the `chars` line, with the newline that ends it.
    pub open spec fn spec_line(&self) -> Seq<u8> {
        chars_line(self.count as nat)
    }

    /// Appends the `chars` line to `out`.
    pub fn write_to(&self, out: &mut PrintWriter)
        ensures
            final(out)@ == old(out)@ + self.spec_line(),
    {
        let (base, line) = begin_line(out, "chars count=");
        let line = put_value(out, base, line, self.count as u64);
        let line = put_text(out, base, line, "\n");
    }
}

/// Where one glyph lies in the atlas, and how to place it on a line of text:
/// a `char` line.
pub struct CharTag {
    /// Character id, usually the Unicode codepoint
    pub id: usize,
    /// Offset of left glyph edge in bitmap font
    pub x: u32,
    /// Offset of top glyph edge in bitmap font
    pub y: u32,
    /// Width of the rendered glyph
    pub width: u32,
    /// Height of the rendered glyph
    pub height: u32,
    /// Horizontal offset that should be added to the text cursor to find the left edge position of the glyph
    pub xoffset: i32,
    /// Distance from the top of the cell (i.e. top of the line) to the top of the bitmap.
    pub yoffset: i32,
    /// Distance to move the text cursor forward to render the next glyph
    pub xadvance: i32,
    /// Identifies the bitmap font page containing this character
    pub page: u32,
    pub chnl: u8,
}

impl CharTag {
    /// The text of the `char` line, with the newline that ends it.
    pub open spec fn spec_line(&self) -> Seq<u8> {
        lit("char id=") + decimal(self.id as nat)
            + lit(" x=") + decimal(self.x as nat)
            + lit(" y=") + decimal(self.y as nat)
            + lit(" width=") + decimal(self.width as nat)
            + lit(" height=") + decimal(self.height as nat)
            + lit(" xoffset=") + signed_decimal(self.xoffset as int)
            + lit(" yoffset=") + signed_decimal(self.yoffset as int)
            + lit(" xadvance=") + signed_decimal(self.xadvance as int)
            + lit(" page=") + decimal(self.page as nat)
            + lit(" chnl=") + decimal(self.chnl as nat)
            + lit("\n")
    }

    /// Appends the `char` line to `out`.
    pub fn write_to(&self, out: &mut PrintWriter)
        ensures
            final(out)@ == old(out)@ + self.spec_line(),
    {
        let (base, line) = begin_line(out, "char id=");
        let line = put_value(out, base, line, self.id as u64);
        let line = put_u32(out, base, line, " x=", self.x);
        let line = put_u32(out, base, line, " y=", self.y);
        let line = put_u32(out, base, line, " width=", self.width);
        let line = put_u32(out, base, line, " height=", self.height);
        let line = put_i32(out, base, line, " xoffset=", self.xoffset);
        let line = put_i32(out, base, line, " yoffset=", self.yoffset);
        let line = put_i32(out, base, line, " xadvance=", self.xadvance);
        let line = put_u32(out, base, line, " page=", self.page);
        let line = put_u8(out, base, line, " chnl=", self.chnl);
        let line = put_text(out, base, line, "\n");
    }
}

/// The `char` lines of `chars`, one after the other in the order of the list.
pub open spec fn char_lines(chars: Seq<CharTag>) -> Seq<u8>
    decreases chars.len(),
{
    if chars.len() == 0 {
        Seq::empty()
    } else {
        char_lines(chars.drop_last()) + chars.last().spec_line()
    }
}

/// A whole descriptor: face, atlas, page and the glyphs in the order in which
/// they were placed.
pub struct FontFile {
    pub info: InfoTag,
    pub common: CommonTag,
    pub page: PageTag,
    pub chars: Vec<CharTag>,
}

/// Text that is appended in two pieces is appended as one.
pub proof fn lemma_append_twice(start: Seq<u8>, first: Seq<u8>, second: Seq<u8>)
    ensures
        (start + first) + second == start + (first + second),
{
    assert((start + first) + second =~= start + (first + second));
}

/// One more `char` line: if the sink holds the head and the lines of the
/// first `i` glyphs, and the line of glyph `i` is appended, it holds the head
/// and the lines of the first `i + 1` glyphs.
proof fn lemma_next_char_line(
    start: Seq<u8>,
    head: Seq<u8>,
    chars: Seq<CharTag>,
    i: int,
    before: Seq<u8>,
    after: Seq<u8>,
)
    requires
        0 <= i < chars.len(),
        before == start + (head + char_lines(chars.subrange(0, i))),
        after == before + chars[i].spec_line(),
    ensures
        after == start + (head + char_lines(chars.subrange(0, i + 1))),
{
    let done = char_lines(chars.subrange(0, i));
    let line = chars[i].spec_line();
    let next = chars.subrange(0, i + 1);
    assert(next.drop_last() =~= chars.subrange(0, i));
    assert(next.last() == chars[i]);
    assert(char_lines(next) == done + line);
    lemma_append_twice(start, head + done, line);
    lemma_append_twice(head, done, line);
}

/// Appends the `chars` line for `count` glyphs to `out`.
fn write_chars_line(out: &mut PrintWriter, count: usize)
    ensures
        final(out)@ == old(out)@ + chars_line(count as nat),
{
    let (base, line) = begin_line(out, "chars count=");
    let line = put_value(out, base, line, count as u64);
    let line = put_text(out, base, line, "\n");
}

impl FontFile {
    /// The lines before the glyphs: `info`, `common`, `page` and `chars`.
    pub open spec fn spec_head(&self) -> Seq<u8> {
        self.info.spec_line() + self.common.spec_line() + self.page.spec_line() + chars_line(
            self.chars@.len(),
        )
    }

    /// The text of the descriptor: the `info`, `common`, `page` and `chars`
    /// lines, then one `char` line for each glyph, in the order of the list.
    pub open spec fn spec_text(&self) -> Seq<u8> {
        self.spec_head() + char_lines(self.chars@)
    }

    /// Appends the lines before the glyphs to `out`.
    fn write_head(&self, out: &mut PrintWriter)
        ensures
            final(out)@ == old(out)@ + self.spec_head(),
    {
        let ghost start = out@;
        let ghost info = self.info.spec_line();
        let ghost common = self.common.spec_line();
        let ghost page = self.page.spec_line();
        self.info.write_to(out);
        self.common.write_to(out);
        proof {
            lemma_append_twice(start, info, common);
        }
        self.page.write_to(out);
        proof {
            lemma_append_twice(start, info + common, page);
        }
        write_chars_line(out, self.chars.len());
        proof {
            lemma_append_twice(start, info + common + page, chars_line(self.chars@.len()));
        }
    }

    /// Appends the text of the descriptor to `write`.
    pub fn write(&self, write: &mut Vec<u8>)
        ensures
            final(write)@ == old(write)@ + self.spec_text(),
    {
        let mut buffer: Vec<u8> = Vec::new();
        std::mem::swap(write, &mut buffer);
        let mut out = PrintWriter::new(buffer);
        let ghost start = out@;
        let ghost head = self.spec_head();

        self.write_head(&mut out);
        proof {
            assert(self.chars@.subrange(0, 0) =~= Seq::<CharTag>::empty());
            assert(head + char_lines(self.chars@.subrange(0, 0)) =~= head);
        }

        let mut i: usize = 0;
        while i < self.chars.len()
            invariant
                i <= self.chars.len(),
                out@ == start + (head + char_lines(self.chars@.subrange(0, i as int))),
            decreases self.chars.len() - i,
        {
            let ghost before = out@;
            self.chars[i].write_to(&mut out);
            proof {
                lemma_next_char_line(start, head, self.chars@, i as int, before, out@);
            }
            i += 1;
        }
        assert(self.chars@.subrange(0, i as int) =~= self.chars@);
        *write = out.into_bytes();
    }
}

} // verus!
