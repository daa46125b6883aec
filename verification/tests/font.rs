use ligth_engine::font::parser::{read_i32, read_usize};
use ligth_engine::font::text::{begins_with, chars_of, is, read_digits, split_at, split_once_at};
use ligth_engine::font::{Font, FontError, Glyph};

fn chars(text: &str) -> Vec<char> {
    text.chars().collect()
}

fn glyph(x: i32) -> Glyph {
    Glyph { x, y: 2, width: 3, height: 4, xoffset: 5, yoffset: -6, xadvance: 7 }
}

fn char_line(id: usize, x: i32) -> String {
    format!("char id={} x={} y=2 width=3 height=4 xoffset=5 yoffset=-6 xadvance=7 page=0 chnl=15", id, x)
}

fn file(lines: &[String]) -> String {
    let mut text = String::from(
        "info face=Tektur size=32\ncommon lineHeight=40 base=31 scaleW=256 scaleH=128 pages=1\npage id=0 file=x.png\nchars count=3",
    );
    for line in lines {
        text.push('\n');
        text.push_str(line);
    }
    text
}

#[test]
fn chars_of_keeps_every_char() {
    assert_eq!(chars_of("aé\n z"), vec!['a', 'é', '\n', ' ', 'z']);
    assert_eq!(chars_of(""), Vec::<char>::new());
}

#[test]
fn split_yields_one_piece_more_than_separators() {
    assert_eq!(split_at(&chars("a b  c"), ' '), vec![chars("a"), chars("b"), chars(""), chars("c")]);
    assert_eq!(split_at(&chars(""), ' '), vec![chars("")]);
    assert_eq!(split_at(&chars(" "), ' '), vec![chars(""), chars("")]);
    assert_eq!(split_at(&chars("ab"), ' '), vec![chars("ab")]);
    assert_eq!(split_at(&chars("x\ny\n"), '\n'), vec![chars("x"), chars("y"), chars("")]);
}

#[test]
fn split_once_cuts_at_the_first_occurrence() {
    assert_eq!(split_once_at(&chars("a=b=c"), '='), Some((chars("a"), chars("b=c"))));
    assert_eq!(split_once_at(&chars("=b"), '='), Some((chars(""), chars("b"))));
    assert_eq!(split_once_at(&chars("a="), '='), Some((chars("a"), chars(""))));
    assert_eq!(split_once_at(&chars("ab"), '='), None);
    assert_eq!(split_once_at(&chars(""), '='), None);
}

#[test]
fn prefixes_and_whole_words() {
    assert!(begins_with(&chars("char id=1"), "char "));
    assert!(begins_with(&chars("char "), "char "));
    assert!(!begins_with(&chars("char"), "char "));
    assert!(!begins_with(&chars("chars count=3"), "char "));
    assert!(begins_with(&chars("anything"), ""));
    assert!(is(&chars("scaleW"), "scaleW"));
    assert!(!is(&chars("scaleW"), "scaleH"));
    assert!(!is(&chars("scale"), "scaleW"));
    assert!(!is(&chars("scaleWW"), "scaleW"));
}

#[test]
fn digits_up_to_the_limit() {
    assert_eq!(read_digits(&chars("0"), 10), Some(0));
    assert_eq!(read_digits(&chars("10"), 10), Some(10));
    assert_eq!(read_digits(&chars("11"), 10), None);
    assert_eq!(read_digits(&chars("0007"), 10), Some(7));
    assert_eq!(read_digits(&chars(""), 10), None);
    assert_eq!(read_digits(&chars("1a"), 10), None);
    assert_eq!(read_digits(&chars("999999999999999999999999999"), u64::MAX), None);
    assert_eq!(read_digits(&chars("18446744073709551615"), u64::MAX), Some(u64::MAX));
    assert_eq!(read_digits(&chars("18446744073709551616"), u64::MAX), None);
    assert_eq!(read_digits(&chars("7"), 5), None);
}

#[test]
fn signed_numbers_as_the_standard_library_reads_them() {
    for text in [
        "0", "-0", "+0", "7", "-7", "+7", "2147483647", "2147483648", "-2147483648",
        "-2147483649", "", "-", "+", "--1", "+-1", "1-", " 1", "1 ", "0x10", "００", "12a",
        "000000000000000000012", "99999999999999999999999",
    ] {
        assert_eq!(read_i32(&chars(text)), text.parse::<i32>().ok(), "{:?}", text);
    }
}

#[test]
fn unsigned_numbers_as_the_standard_library_reads_them() {
    for text in [
        "0", "+0", "-0", "-1", "65", "+65", "18446744073709551615", "18446744073709551616", "",
        "+", "6 5", "6５",
    ] {
        assert_eq!(read_usize(&chars(text)), text.parse::<usize>().ok(), "{:?}", text);
    }
}

#[test]
fn font_with_three_glyphs() {
    let text = file(&[char_line(66, 10), char_line(65, 20), char_line(69, 30)]);
    let font = Font::parse(&text).unwrap();
    assert_eq!(font.line_height, 40);
    assert_eq!(font.scale_w, 256);
    assert_eq!(font.scale_h, 128);
    assert_eq!(font.glyphs_start, 65);
    assert_eq!(
        font.glyphs,
        vec![Some(glyph(20)), Some(glyph(10)), None, None, Some(glyph(30))]
    );
    assert_eq!(font.get_glyph('A'), Some(glyph(20)));
    assert_eq!(font.get_glyph('B'), Some(glyph(10)));
    assert_eq!(font.get_glyph('C'), None);
    assert_eq!(font.get_glyph('E'), Some(glyph(30)));
    assert_eq!(font.get_glyph('F'), None);
    assert_eq!(font.get_glyph('@'), None);
    assert_eq!(font.get_glyph('\u{10FFFF}'), None);
    assert_eq!(Font::parse_chars(&chars(&text)), Ok(font));
}

#[test]
fn a_glyph_read_twice_keeps_the_last() {
    let text = file(&[char_line(65, 1), char_line(65, 2)]);
    let font = Font::parse(&text).unwrap();
    assert_eq!(font.glyphs, vec![Some(glyph(2))]);
}

#[test]
fn glyph_measures_default_to_zero() {
    let text = file(&["char id=70 xadvance=-3 letter=F".to_string()]);
    let font = Font::parse(&text).unwrap();
    assert_eq!(Glyph::default().xadvance, 0);
    assert_eq!(font.glyphs, vec![Some(Glyph { xadvance: -3, ..Glyph::default() })]);
    assert_eq!(font.glyphs_start, 70);
}

#[test]
fn a_char_line_without_id_is_the_glyph_of_code_zero() {
    let text = file(&["char x=9".to_string(), char_line(2, 1)]);
    let font = Font::parse(&text).unwrap();
    assert_eq!(font.glyphs_start, 0);
    assert_eq!(font.glyphs, vec![Some(Glyph { x: 9, ..Glyph::default() }), None, Some(glyph(1))]);
}

#[test]
fn other_lines_are_passed_over() {
    let text = file(&[
        "kerning first=65 second=66 amount=-2".to_string(),
        "charming".to_string(),
        String::new(),
        char_line(65, 1),
        String::new(),
    ]);
    let font = Font::parse(&text).unwrap();
    assert_eq!(font.glyphs, vec![Some(glyph(1))]);
}

#[test]
fn the_third_and_fourth_line_are_never_read() {
    let text = format!(
        "info\u{20}\ncommon lineHeight=1\n{}\n{}\n{}",
        char_line(65, 1),
        "char broken",
        char_line(66, 2)
    );
    let font = Font::parse(&text).unwrap();
    assert_eq!(font.glyphs_start, 66);
    assert_eq!(font.glyphs, vec![Some(glyph(2))]);
    assert_eq!(font.scale_w, 0);
}

#[test]
fn head_only_is_a_font_without_glyphs() {
    let font = Font::parse("info x=1\ncommon scaleH=9 lineHeight=+8").unwrap();
    assert_eq!(
        font,
        Font { line_height: 8, scale_w: 0, scale_h: 9, glyphs: vec![], glyphs_start: 0 }
    );
    assert_eq!(font.get_glyph('a'), None);
}

#[test]
fn missing_info_line_is_refused() {
    assert_eq!(Font::parse(""), Err(FontError::InfoLine));
    assert_eq!(Font::parse("info"), Err(FontError::InfoLine));
    assert_eq!(Font::parse("common lineHeight=1\ninfo x"), Err(FontError::InfoLine));
}

#[test]
fn missing_common_line_is_refused() {
    assert_eq!(Font::parse("info face=x"), Err(FontError::CommonLine));
    assert_eq!(Font::parse("info face=x\n"), Err(FontError::CommonLine));
    assert_eq!(Font::parse("info face=x\ncommon"), Err(FontError::CommonLine));
    assert_eq!(Font::parse("info face=x\npage\ncommon a=1"), Err(FontError::CommonLine));
}

#[test]
fn a_variable_without_equals_sign_is_refused() {
    assert_eq!(Font::parse("info x\ncommon lineHeight"), Err(FontError::Variable));
    assert_eq!(Font::parse("info x\ncommon "), Err(FontError::Variable));
    assert_eq!(Font::parse("info x\ncommon a=1  b=2"), Err(FontError::Variable));
    assert_eq!(Font::parse(&file(&["char id=65  x=1".to_string()])), Err(FontError::Variable));
    assert_eq!(Font::parse(&file(&["char id=65 x=1 ".to_string()])), Err(FontError::Variable));
}

#[test]
fn a_known_variable_needs_a_number() {
    assert_eq!(Font::parse("info x\ncommon scaleW=wide"), Err(FontError::Number));
    assert_eq!(Font::parse("info x\ncommon lineHeight=2147483648"), Err(FontError::Number));
    assert_eq!(Font::parse("info x\ncommon base=wide"), Font::parse("info x\ncommon a=1"));
    assert_eq!(Font::parse(&file(&["char id=-1".to_string()])), Err(FontError::Number));
    assert_eq!(Font::parse(&file(&["char id=1 width=1.5".to_string()])), Err(FontError::Number));
    assert_eq!(Font::parse(&file(&["char id=1 x=1\r".to_string()])), Err(FontError::Number));
}

#[test]
fn the_first_fault_is_reported() {
    assert_eq!(Font::parse("info x\ncommon scaleW=wide broken"), Err(FontError::Number));
    assert_eq!(Font::parse("info x\ncommon broken scaleW=wide"), Err(FontError::Variable));
    let text = file(&["char id=x".to_string(), "char broken".to_string()]);
    assert_eq!(Font::parse(&text), Err(FontError::Number));
}

#[test]
fn a_glyph_beyond_every_table_is_refused() {
    let text = file(&["char id=0".to_string(), format!("char id={}", usize::MAX)]);
    assert_eq!(Font::parse(&text), Err(FontError::GlyphId));
}

#[test]
fn the_table_spans_from_the_lowest_to_the_highest_code() {
    let text = file(&[char_line(300, 1), char_line(40, 2), char_line(1000, 3)]);
    let font = Font::parse(&text).unwrap();
    assert_eq!(font.glyphs_start, 40);
    assert_eq!(font.glyphs.len(), 961);
    assert_eq!(font.glyphs[0], Some(glyph(2)));
    assert_eq!(font.glyphs[260], Some(glyph(1)));
    assert_eq!(font.glyphs[960], Some(glyph(3)));
    assert_eq!(font.glyphs.iter().filter(|g| g.is_some()).count(), 3);
    assert_eq!(font.get_glyph('\u{12c}'), Some(glyph(1)));
}
