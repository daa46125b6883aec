use super::text::{
    begins_with, chars_of, is, parse_i32, parse_usize, read_digits, skip, split, split_at,
    split_once, split_once_at, starts_with, views,
};
use vstd::prelude::*;

verus! {

/// Why a font description was refused.
#[derive(Clone, Copy, Debug, PartialEq, Eq, Structural)]
pub enum FontError {
    /// The first line does not begin with `info `.
    InfoLine,
    /// There is no second line, or it does not begin with `common `.
    CommonLine,
    /// A variable is not of the form `name=value`.
    Variable,
    /// The value of a known variable is not a number that fits its type.
    Number,
    /// A glyph is too far from the others for any table.
    GlyphId,
}

/// Where a glyph lies on the page of its font and how it is set, in pixels.
#[derive(Clone, Copy, Debug, PartialEq, Eq, Structural)]
pub struct Glyph {
    pub x: i32,
    pub y: i32,
    pub width: i32,
    pub height: i32,
    pub xoffset: i32,
    pub yoffset: i32,
    pub xadvance: i32,
}

impl Glyph {
    /// The glyph with all measures zero.
    pub open spec fn empty() -> Glyph {
        Glyph { x: 0, y: 0, width: 0, height: 0, xoffset: 0, yoffset: 0, xadvance: 0 }
    }
}

impl Default for Glyph {
    fn default() -> (glyph: Glyph)
        ensures
            glyph == Glyph::empty(),
    {
        Glyph { x: 0, y: 0, width: 0, height: 0, xoffset: 0, yoffset: 0, xadvance: 0 }
    }
}

/// A bitmap font: the measures of its page, and its glyphs by character
/// code. `glyphs[i]` is the glyph of the character `glyphs_start + i`.
#[derive(Clone, Debug, PartialEq, Eq)]
pub struct Font {
    pub line_height: i32,
    pub scale_w: i32,
    pub scale_h: i32,
    pub glyphs: Vec<Option<Glyph>>,
    pub glyphs_start: usize,
}

/// The mathematical content of a [`Font`].
pub struct FontView {
    pub line_height: i32,
    pub scale_w: i32,
    pub scale_h: i32,
    pub glyphs: Seq<Option<Glyph>>,
    pub glyphs_start: usize,
}

impl View for Font {
    type V = FontView;

    open spec fn view(&self) -> FontView {
        FontView {
            line_height: self.line_height,
            scale_w: self.scale_w,
            scale_h: self.scale_h,
            glyphs: self.glyphs@,
            glyphs_start: self.glyphs_start,
        }
    }
}

/// `count` table entries without glyph.
pub open spec fn gap(count: int) -> Seq<Option<Glyph>> {
    Seq::new(count as nat, |i: int| None::<Glyph>)
}

/// The state of reading one `char` line: the character code and the
/// measures read so far.
pub struct GlyphEntry {
    pub id: usize,
    pub glyph: Glyph,
}

impl FontView {
    /// The font without glyphs and with all measures zero.
    pub open spec fn empty() -> FontView {
        FontView { line_height: 0, scale_w: 0, scale_h: 0, glyphs: Seq::empty(), glyphs_start: 0 }
    }

    /// The glyph of the character with code `code`, if the font has one.
    pub open spec fn glyph(self, code: int) -> Option<Glyph> {
        if self.glyphs_start <= code < self.glyphs_start + self.glyphs.len() {
            self.glyphs[code - self.glyphs_start]
        } else {
            None
        }
    }

    /// The font with `glyph` as the glyph of the character `id`. The table
    /// grows at its front or at its end as far as it has to.
    pub open spec fn with_glyph(self, id: usize, glyph: Glyph) -> Result<FontView, FontError> {
        if self.glyphs.len() == 0 {
            Ok(FontView { glyphs: seq![Some(glyph)], glyphs_start: id, ..self })
        } else if self.glyphs_start > id {
            Ok(
                FontView {
                    glyphs: (gap(self.glyphs_start - id) + self.glyphs).update(0, Some(glyph)),
                    glyphs_start: id,
                    ..self
                },
            )
        } else if id - self.glyphs_start == usize::MAX {
            Err(FontError::GlyphId)
        } else if self.glyphs.len() <= id - self.glyphs_start {
            Ok(
                FontView {
                    glyphs: (self.glyphs + gap(id - self.glyphs_start + 1 - self.glyphs.len())).update(
                        id - self.glyphs_start,
                        Some(glyph),
                    ),
                    ..self
                },
            )
        } else {
            Ok(FontView { glyphs: self.glyphs.update(id - self.glyphs_start, Some(glyph)), ..self })
        }
    }

    /// The font after one variable of the `common` line was read:
    /// `lineHeight`, `scaleW` and `scaleH` are taken over, any other
    /// variable is passed over.
    pub open spec fn common_var(self, var: Seq<char>) -> Result<FontView, FontError> {
        match split_once(var, '=') {
            None => Err(FontError::Variable),
            Some((name, value)) => if name == "lineHeight"@ {
                match parse_i32(value) {
                    Some(v) => Ok(FontView { line_height: v, ..self }),
                    None => Err(FontError::Number),
                }
            } else if name == "scaleW"@ {
                match parse_i32(value) {
                    Some(v) => Ok(FontView { scale_w: v, ..self }),
                    None => Err(FontError::Number),
                }
            } else if name == "scaleH"@ {
                match parse_i32(value) {
                    Some(v) => Ok(FontView { scale_h: v, ..self }),
                    None => Err(FontError::Number),
                }
            } else {
                Ok(self)
            },
        }
    }

    /// The font after the variables `vars` of the `common` line were read
    /// in order, up to the first that is refused.
    pub open spec fn common_vars(self, vars: Seq<Seq<char>>) -> Result<FontView, FontError>
        decreases vars.len(),
    {
        if vars.len() == 0 {
            Ok(self)
        } else {
            match self.common_vars(vars.drop_last()) {
                Ok(font) => font.common_var(vars.last()),
                Err(e) => Err(e),
            }
        }
    }

    /// The font after one line behind the head of the file was read: a
    /// line that begins with `char ` adds a glyph, any other line is
    /// passed over.
    pub open spec fn char_line(self, line: Seq<char>) -> Result<FontView, FontError> {
        if starts_with(line, "char "@) {
            match GlyphEntry::start().vars(split(line.skip("char "@.len() as int), ' ')) {
                Ok(entry) => self.with_glyph(entry.id, entry.glyph),
                Err(e) => Err(e),
            }
        } else {
            Ok(self)
        }
    }

    /// The font after the lines `lines` were read in order, up to the
    /// first that is refused.
    pub open spec fn char_lines(self, lines: Seq<Seq<char>>) -> Result<FontView, FontError>
        decreases lines.len(),
    {
        if lines.len() == 0 {
            Ok(self)
        } else {
            match self.char_lines(lines.drop_last()) {
                Ok(font) => font.char_line(lines.last()),
                Err(e) => Err(e),
            }
        }
    }

    /// The font that the description `text` gives: the first line begins
    /// with `info `, the second holds the measures of the page, the third
    /// and the fourth are passed over, and each further line may hold a
    /// glyph.
    pub open spec fn parse(text: Seq<char>) -> Result<FontView, FontError> {
        let lines = split(text, '\n');
        if !starts_with(lines[0], "info "@) {
            Err(FontError::InfoLine)
        } else if lines.len() < 2 || !starts_with(lines[1], "common "@) {
            Err(FontError::CommonLine)
        } else {
            match Self::empty().common_vars(split(lines[1].skip("common "@.len() as int), ' ')) {
                Err(e) => Err(e),
                Ok(font) => if lines.len() <= 4 {
                    Ok(font)
                } else {
                    font.char_lines(lines.skip(4))
                },
            }
        }
    }
}

impl GlyphEntry {
    /// The character 0 with all measures zero.
    pub open spec fn start() -> GlyphEntry {
        GlyphEntry { id: 0, glyph: Glyph::empty() }
    }

    /// The entry after one variable of a `char` line was read: `id` and
    /// the seven measures are taken over, any other variable is passed
    /// over.
    pub open spec fn var(self, var: Seq<char>) -> Result<GlyphEntry, FontError> {
        match split_once(var, '=') {
            None => Err(FontError::Variable),
            Some((name, value)) => if name == "id"@ {
                match parse_usize(value) {
                    Some(v) => Ok(GlyphEntry { id: v, ..self }),
                    None => Err(FontError::Number),
                }
            } else if name == "x"@ || name == "y"@ || name == "width"@ || name == "height"@ || name
                == "xoffset"@ || name == "yoffset"@ || name == "xadvance"@ {
                match parse_i32(value) {
                    Some(v) => Ok(
                        GlyphEntry {
                            glyph: if name == "x"@ {
                                Glyph { x: v, ..self.glyph }
                            } else if name == "y"@ {
                                Glyph { y: v, ..self.glyph }
                            } else if name == "width"@ {
                                Glyph { width: v, ..self.glyph }
                            } else if name == "height"@ {
                                Glyph { height: v, ..self.glyph }
                            } else if name == "xoffset"@ {
                                Glyph { xoffset: v, ..self.glyph }
                            } else if name == "yoffset"@ {
                                Glyph { yoffset: v, ..self.glyph }
                            } else {
                                Glyph { xadvance: v, ..self.glyph }
                            },
                            ..self
                        },
                    ),
                    None => Err(FontError::Number),
                }
            } else {
                Ok(self)
            },
        }
    }

    /// The entry after the variables `vars` were read in order, up to the
    /// first that is refused.
    pub open spec fn vars(self, vars: Seq<Seq<char>>) -> Result<GlyphEntry, FontError>
        decreases vars.len(),
    {
        if vars.len() == 0 {
            Ok(self)
        } else {
            match self.vars(vars.drop_last()) {
                Ok(entry) => entry.var(vars.last()),
                Err(e) => Err(e),
            }
        }
    }
}

/// Reads `text` as a 32-bit signed number.
pub fn read_i32(text: &Vec<char>) -> (value: Option<i32>)
    ensures
        value == parse_i32(text@),
{
    if text.len() > 0 && text[0] == '-' {
        let digits = skip(text, 1);
        match read_digits(&digits, 0x8000_0000) {
            Some(v) => Some((-(v as i64)) as i32),
            None => None,
        }
    } else if text.len() > 0 && text[0] == '+' {
        let digits = skip(text, 1);
        match read_digits(&digits, 0x7FFF_FFFF) {
            Some(v) => Some(v as i32),
            None => None,
        }
    } else {
        match read_digits(text, 0x7FFF_FFFF) {
            Some(v) => Some(v as i32),
            None => None,
        }
    }
}

/// Reads `text` as an unsigned number.
pub fn read_usize(text: &Vec<char>) -> (value: Option<usize>)
    ensures
        value == parse_usize(text@),
{
    if text.len() > 0 && text[0] == '+' {
        let digits = skip(text, 1);
        match read_digits(&digits, usize::MAX as u64) {
            Some(v) => Some(v as usize),
            None => None,
        }
    } else {
        match read_digits(text, usize::MAX as u64) {
            Some(v) => Some(v as usize),
            None => None,
        }
    }
}

/// What follows `prefix` in `text`, if `text` begins with it.
fn strip_prefix(text: &Vec<char>, prefix: &str) -> (rest: Option<Vec<char>>)
    ensures
        match rest {
            Some(rest) => starts_with(text@, prefix@) && rest@ == text@.skip(prefix@.len() as int),
            None => !starts_with(text@, prefix@),
        },
{
    if begins_with(text, prefix) {
        Some(skip(text, prefix.unicode_len()))
    } else {
        None
    }
}

fn read_glyph_var(entry: GlyphEntry, var: &Vec<char>) -> (read: Result<GlyphEntry, FontError>)
    ensures
        read == entry.var(var@),
{
    let (name, value) = match split_once_at(var, '=') {
        Some(halves) => halves,
        None => {
            return Err(FontError::Variable);
        },
    };
    let glyph = entry.glyph;
    if is(&name, "id") {
        match read_usize(&value) {
            Some(v) => Ok(GlyphEntry { id: v, glyph }),
            None => Err(FontError::Number),
        }
    } else if is(&name, "x") {
        match read_i32(&value) {
            Some(v) => Ok(GlyphEntry { id: entry.id, glyph: Glyph { x: v, ..glyph } }),
            None => Err(FontError::Number),
        }
    } else if is(&name, "y") {
        match read_i32(&value) {
            Some(v) => Ok(GlyphEntry { id: entry.id, glyph: Glyph { y: v, ..glyph } }),
            None => Err(FontError::Number),
        }
    } else if is(&name, "width") {
        match read_i32(&value) {
            Some(v) => Ok(GlyphEntry { id: entry.id, glyph: Glyph { width: v, ..glyph } }),
            None => Err(FontError::Number),
        }
    } else if is(&name, "height") {
        match read_i32(&value) {
            Some(v) => Ok(GlyphEntry { id: entry.id, glyph: Glyph { height: v, ..glyph } }),
            None => Err(FontError::Number),
        }
    } else if is(&name, "xoffset") {
        match read_i32(&value) {
            Some(v) => Ok(GlyphEntry { id: entry.id, glyph: Glyph { xoffset: v, ..glyph } }),
            None => Err(FontError::Number),
        }
    } else if is(&name, "yoffset") {
        match read_i32(&value) {
            Some(v) => Ok(GlyphEntry { id: entry.id, glyph: Glyph { yoffset: v, ..glyph } }),
            None => Err(FontError::Number),
        }
    } else if is(&name, "xadvance") {
        match read_i32(&value) {
            Some(v) => Ok(GlyphEntry { id: entry.id, glyph: Glyph { xadvance: v, ..glyph } }),
            None => Err(FontError::Number),
        }
    } else {
        Ok(entry)
    }
}

impl Font {
    /// The glyph of `c`, if the font has one.
    pub fn get_glyph(&self, c: char) -> (glyph: Option<Glyph>)
        ensures
            glyph == self@.glyph(c as int),
    {
        let code = c as usize;
        if self.glyphs_start > code {
            None
        } else if code - self.glyphs_start < self.glyphs.len() {
            self.glyphs[code - self.glyphs_start]
        } else {
            None
        }
    }

    /// Makes `glyph` the glyph of the character `id`.
    fn set_glyph(&mut self, id: usize, glyph: Glyph) -> (set: Result<(), FontError>)
        ensures
            match set {
                Ok(()) => old(self)@.with_glyph(id, glyph) == Ok::<FontView, FontError>(final(self)@),
                Err(e) => old(self)@.with_glyph(id, glyph) == Err::<FontView, FontError>(e),
            },
    {
        if self.glyphs.len() == 0 {
            self.glyphs_start = id;
            self.glyphs.push(Some(glyph));
            assert(self.glyphs@ =~= seq![Some(glyph)]);
            Ok(())
        } else if self.glyphs_start > id {
            let pad = self.glyphs_start - id;
            let mut padded: Vec<Option<Glyph>> = Vec::new();
            padded.push(Some(glyph));
            let mut k: usize = 1;
            while k < pad
                invariant
                    1 <= k <= pad,
                    padded@ =~= gap(k as int).update(0, Some(glyph)),
                decreases pad - k,
            {
                padded.push(None);
                k += 1;
            }
            padded.append(&mut self.glyphs);
            assert(padded@ =~= (gap(pad as int) + old(self).glyphs@).update(0, Some(glyph)));
            self.glyphs = padded;
            self.glyphs_start = id;
            Ok(())
        } else if id - self.glyphs_start == usize::MAX {
            Err(FontError::GlyphId)
        } else {
            let at = id - self.glyphs_start;
            let ghost before = self.glyphs@;
            while self.glyphs.len() <= at
                invariant
                    self.glyphs@.len() >= before.len(),
                    self.glyphs@.len() == before.len() || self.glyphs@.len() <= at + 1,
                    self.glyphs@ =~= before + gap(self.glyphs@.len() - before.len()),
                    self.glyphs_start == old(self).glyphs_start,
                    self.line_height == old(self).line_height,
                    self.scale_w == old(self).scale_w,
                    self.scale_h == old(self).scale_h,
                    at < usize::MAX,
                decreases at + 1 - self.glyphs@.len(),
            {
                self.glyphs.push(None);
            }
            proof {
                if before.len() > at {
                    assert(self.glyphs@ =~= before);
                }
            }
            self.glyphs[at] = Some(glyph);
            Ok(())
        }
    }

    fn read_common_var(&mut self, var: &Vec<char>) -> (read: Result<(), FontError>)
        ensures
            match read {
                Ok(()) => old(self)@.common_var(var@) == Ok::<FontView, FontError>(final(self)@),
                Err(e) => old(self)@.common_var(var@) == Err::<FontView, FontError>(e),
            },
    {
        let (name, value) = match split_once_at(var, '=') {
            Some(halves) => halves,
            None => {
                return Err(FontError::Variable);
            },
        };
        if is(&name, "lineHeight") {
            match read_i32(&value) {
                Some(v) => {
                    self.line_height = v;
                    Ok(())
                },
                None => Err(FontError::Number),
            }
        } else if is(&name, "scaleW") {
            match read_i32(&value) {
                Some(v) => {
                    self.scale_w = v;
                    Ok(())
                },
                None => Err(FontError::Number),
            }
        } else if is(&name, "scaleH") {
            match read_i32(&value) {
                Some(v) => {
                    self.scale_h = v;
                    Ok(())
                },
                None => Err(FontError::Number),
            }
        } else {
            Ok(())
        }
    }

    fn parse_common(&mut self, common: &Vec<char>) -> (read: Result<(), FontError>)
        ensures
            match read {
                Ok(()) => old(self)@.common_vars(split(common@, ' ')) == Ok::<FontView, FontError>(
                    final(self)@,
                ),
                Err(e) => old(self)@.common_vars(split(common@, ' ')) == Err::<FontView, FontError>(
                    e,
                ),
            },
    {
        let vars = split_at(common, ' ');
        let ghost all = views(vars@);
        let mut i: usize = 0;
        assert(all.take(0) =~= Seq::empty());
        while i < vars.len()
            invariant
                i <= vars@.len(),
                all == views(vars@),
                all == split(common@, ' '),
                old(self)@.common_vars(all.take(i as int)) == Ok::<FontView, FontError>(self@),
            decreases vars@.len() - i,
        {
            proof {
                assert(all.take(i + 1).drop_last() =~= all.take(i as int));
                assert(all.take(i + 1).last() == vars@[i as int]@);
            }
            match self.read_common_var(&vars[i]) {
                Ok(()) => {},
                Err(e) => {
                    proof {
                        lemma_common_error_stays(old(self)@, all, i + 1, e);
                    }
                    return Err(e);
                },
            }
            i += 1;
        }
        assert(all.take(vars@.len() as int) =~= all);
        Ok(())
    }

    fn parse_char(&mut self, char: &Vec<char>) -> (read: Result<(), FontError>)
        ensures
            match read {
                Ok(()) => match GlyphEntry::start().vars(split(char@, ' ')) {
                    Ok(entry) => old(self)@.with_glyph(entry.id, entry.glyph) == Ok::<
                        FontView,
                        FontError,
                    >(final(self)@),
                    Err(_) => false,
                },
                Err(e) => match GlyphEntry::start().vars(split(char@, ' ')) {
                    Ok(entry) => old(self)@.with_glyph(entry.id, entry.glyph) == Err::<
                        FontView,
                        FontError,
                    >(e),
                    Err(cause) => cause == e,
                },
            },
    {
        let vars = split_at(char, ' ');
        let ghost all = views(vars@);
        let mut entry = GlyphEntry { id: 0, glyph: Glyph::default() };
        let mut i: usize = 0;
        assert(all.take(0) =~= Seq::empty());
        while i < vars.len()
            invariant
                i <= vars@.len(),
                all == views(vars@),
                all == split(char@, ' '),
                GlyphEntry::start().vars(all.take(i as int)) == Ok::<GlyphEntry, FontError>(entry),
            decreases vars@.len() - i,
        {
            proof {
                assert(all.take(i + 1).drop_last() =~= all.take(i as int));
                assert(all.take(i + 1).last() == vars@[i as int]@);
            }
            match read_glyph_var(entry, &vars[i]) {
                Ok(next) => {
                    entry = next;
                },
                Err(e) => {
                    proof {
                        lemma_entry_error_stays(GlyphEntry::start(), all, i + 1, e);
                    }
                    return Err(e);
                },
            }
            i += 1;
        }
        assert(all.take(vars@.len() as int) =~= all);
        self.set_glyph(entry.id, entry.glyph)
    }

    fn parse_page_line(&mut self, line: &Vec<char>) -> (read: Result<(), FontError>)
        ensures
            match read {
                Ok(()) => old(self)@.char_line(line@) == Ok::<FontView, FontError>(final(self)@),
                Err(e) => old(self)@.char_line(line@) == Err::<FontView, FontError>(e),
            },
    {
        match strip_prefix(line, "char ") {
            Some(rest) => self.parse_char(&rest),
            None => Ok(()),
        }
    }

    /// Reads the description of a bitmap font from its chars.
    pub fn parse_chars(fnt_file: &Vec<char>) -> (parsed: Result<Font, FontError>)
        ensures
            match parsed {
                Ok(font) => FontView::parse(fnt_file@) == Ok::<FontView, FontError>(font@),
                Err(e) => FontView::parse(fnt_file@) == Err::<FontView, FontError>(e),
            },
    {
        let lines = split_at(fnt_file, '\n');
        let ghost all = views(lines@);
        proof {
            super::text::lemma_split_nonempty(fnt_file@, '\n');
        }
        if !begins_with(&lines[0], "info ") {
            return Err(FontError::InfoLine);
        }
        if lines.len() < 2 {
            return Err(FontError::CommonLine);
        }
        let common = match strip_prefix(&lines[1], "common ") {
            Some(common) => common,
            None => {
                return Err(FontError::CommonLine);
            },
        };
        let mut font = Font {
            line_height: 0,
            scale_w: 0,
            scale_h: 0,
            glyphs: Vec::new(),
            glyphs_start: 0,
        };
        assert(font@ == FontView::empty());
        match font.parse_common(&common) {
            Ok(()) => {},
            Err(e) => {
                return Err(e);
            },
        }
        if lines.len() <= 4 {
            return Ok(font);
        }
        let ghost head = font@;
        let ghost rest = all.skip(4);
        let mut i: usize = 4;
        assert(rest.take(0) =~= Seq::empty());
        while i < lines.len()
            invariant
                4 <= i <= lines@.len(),
                all == views(lines@),
                all == split(fnt_file@, '\n'),
                rest == all.skip(4),
                starts_with(all[0], "info "@),
                starts_with(all[1], "common "@),
                FontView::empty().common_vars(
                    split(all[1].skip("common "@.len() as int), ' '),
                ) == Ok::<FontView, FontError>(head),
                head.char_lines(rest.take(i - 4)) == Ok::<FontView, FontError>(font@),
            decreases lines@.len() - i,
        {
            proof {
                assert(rest.take(i - 4 + 1).drop_last() =~= rest.take(i - 4));
                assert(rest.take(i - 4 + 1).last() == lines@[i as int]@);
            }
            match font.parse_page_line(&lines[i]) {
                Ok(()) => {},
                Err(e) => {
                    proof {
                        lemma_line_error_stays(head, rest, i - 4 + 1, e);
                    }
                    return Err(e);
                },
            }
            i += 1;
        }
        assert(rest.take(lines@.len() - 4) =~= rest);
        Ok(font)
    }

    /// Reads the description of a bitmap font.
    pub fn parse(fnt_file: &str) -> (parsed: Result<Font, FontError>)
        ensures
            match parsed {
                Ok(font) => FontView::parse(fnt_file@) == Ok::<FontView, FontError>(font@),
                Err(e) => FontView::parse(fnt_file@) == Err::<FontView, FontError>(e),
            },
    {
        let chars = chars_of(fnt_file);
        Self::parse_chars(&chars)
    }
}

/// Once a variable of the `common` line is refused, the line is refused
/// for the same reason, whatever follows.
proof fn lemma_common_error_stays(font: FontView, vars: Seq<Seq<char>>, k: int, e: FontError)
    requires
        0 <= k <= vars.len(),
        font.common_vars(vars.take(k)) == Err::<FontView, FontError>(e),
    ensures
        font.common_vars(vars) == Err::<FontView, FontError>(e),
    decreases vars.len() - k,
{
    if k < vars.len() {
        assert(vars.take(k + 1).drop_last() =~= vars.take(k));
        lemma_common_error_stays(font, vars, k + 1, e);
    } else {
        assert(vars.take(k) =~= vars);
    }
}

/// Once a variable of a `char` line is refused, the line is refused for
/// the same reason, whatever follows.
proof fn lemma_entry_error_stays(entry: GlyphEntry, vars: Seq<Seq<char>>, k: int, e: FontError)
    requires
        0 <= k <= vars.len(),
        entry.vars(vars.take(k)) == Err::<GlyphEntry, FontError>(e),
    ensures
        entry.vars(vars) == Err::<GlyphEntry, FontError>(e),
    decreases vars.len() - k,
{
    if k < vars.len() {
        assert(vars.take(k + 1).drop_last() =~= vars.take(k));
        lemma_entry_error_stays(entry, vars, k + 1, e);
    } else {
        assert(vars.take(k) =~= vars);
    }
}

/// Once a line is refused, the file is refused for the same reason,
/// whatever follows.
proof fn lemma_line_error_stays(font: FontView, lines: Seq<Seq<char>>, k: int, e: FontError)
    requires
        0 <= k <= lines.len(),
        font.char_lines(lines.take(k)) == Err::<FontView, FontError>(e),
    ensures
        font.char_lines(lines) == Err::<FontView, FontError>(e),
    decreases lines.len() - k,
{
    if k < lines.len() {
        assert(lines.take(k + 1).drop_last() =~= lines.take(k));
        lemma_line_error_stays(font, lines, k + 1, e);
    } else {
        assert(lines.take(k) =~= lines);
    }
}

} // verus!
