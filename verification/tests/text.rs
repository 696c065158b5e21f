use oxc_codegen::fast_buffer::{align_capacity, FastBuffer, IndentChar};
use oxc_codegen::identifier::{is_identifier_part, is_identifier_part_ascii};
use oxc_codegen::string::{choose_quote, print_quoted, Quote};
use oxc_codegen::text::{
    ascii_lower, bytes_eq, ends_with, find_ascii_break, find_byte, find_unicode_break,
    is_all_ascii, is_script_close_at, print_escaping_script_close_tag, starts_with,
    starts_with_script, str_equal, str_slice, LineTerminatorSplitter,
};
use oxc_codegen::utf8::{decode_last_char, decode_four, decode_three, decode_two, utf8_lead_byte_width};

fn escaped(text: &str) -> String {
    let mut buffer = FastBuffer::new();
    print_escaping_script_close_tag(&mut buffer, text);
    buffer.into_string()
}

fn lines(text: &str) -> Vec<String> {
    let mut splitter = LineTerminatorSplitter::new(text);
    let mut out = Vec::new();
    while let Some(line) = splitter.next() {
        out.push(line.to_string());
    }
    out
}

#[test]
fn lead_byte_widths() {
    assert_eq!(utf8_lead_byte_width(b'a'), 1);
    assert_eq!(utf8_lead_byte_width(0xC3), 2);
    assert_eq!(utf8_lead_byte_width(0xE2), 3);
    assert_eq!(utf8_lead_byte_width(0xF0), 4);
    assert_eq!(utf8_lead_byte_width(0x80), 4);
}

#[test]
fn scalars_are_decoded() {
    assert_eq!(decode_two(0xC3, 0xA9), 'é' as u32);
    assert_eq!(decode_three(0xE2, 0x98, 0x83), '☃' as u32);
    assert_eq!(decode_four(0xF0, 0x9F, 0x98, 0x80), '😀' as u32);
    assert_eq!(decode_last_char(b""), None);
    assert_eq!(decode_last_char("abc".as_bytes()), Some('c'));
    assert_eq!(decode_last_char("aé".as_bytes()), Some('é'));
    assert_eq!(decode_last_char("a☃".as_bytes()), Some('☃'));
    assert_eq!(decode_last_char("a😀".as_bytes()), Some('😀'));
    assert_eq!(decode_last_char(&[0x80, 0x80]), None);
    assert_eq!(decode_last_char(&[b'a', 0xC3]), None);
    assert_eq!(decode_last_char(&[0xED, 0xA0, 0x80]), None);
    assert_eq!(decode_last_char(&[0xC0, 0x80]), None);
}

#[test]
fn buffer_keeps_its_text_and_its_tail() {
    let mut buffer = FastBuffer::new();
    assert!(buffer.is_empty());
    assert_eq!(buffer.last_byte(), None);
    assert_eq!(buffer.last_char(), None);
    buffer.print_str("aé");
    assert_eq!(buffer.len(), 3);
    assert_eq!(buffer.last_char(), Some('é'));
    assert_eq!(buffer.last_byte(), Some(0xA9));
    assert_eq!(buffer.peek_nth_byte_back(2), Some(b'a'));
    assert_eq!(buffer.peek_nth_byte_back(3), None);
    buffer.print_ascii_bytes(b"xy");
    buffer.print_byte_unchecked(b'z');
    buffer.print_bytes_unchecked("☃".as_bytes());
    assert_eq!(buffer.as_bytes(), "aéxyz☃".as_bytes());
    buffer.clear();
    assert_eq!(buffer.len(), 0);
    assert_eq!(buffer.into_string(), "");
}

#[test]
fn buffer_grows_to_powers_of_two() {
    assert_eq!(align_capacity(0), 64);
    assert_eq!(align_capacity(64), 64);
    assert_eq!(align_capacity(65), 128);
    assert_eq!(align_capacity(1000), 1024);
    let mut buffer = FastBuffer::new();
    assert_eq!(buffer.capacity(), 0);
    buffer.print_str("a");
    assert_eq!(buffer.capacity(), 64);
    buffer.print_indent(64);
    assert_eq!(buffer.len(), 65);
    assert_eq!(buffer.capacity(), 128);
    buffer.reserve(1000);
    assert_eq!(buffer.capacity(), 2048);
    buffer.reserve(1);
    assert_eq!(buffer.capacity(), 2048);
    assert_eq!(buffer.metrics(), None);
}

#[test]
fn buffer_counts_its_writes_when_traced() {
    let mut buffer = FastBuffer::new();
    buffer.start_emission(10, IndentChar::Space, 2, true);
    assert_eq!(buffer.capacity(), 64);
    buffer.print_str("abc");
    buffer.print_str("");
    buffer.print_indent(20);
    let metrics = buffer.metrics().unwrap();
    assert_eq!(metrics.writes(), 3);
    assert_eq!(metrics.written_bytes(), 43);
    assert_eq!(metrics.reallocations(), 0);
    buffer.print_indent(20);
    let metrics = buffer.metrics().unwrap();
    assert_eq!(metrics.writes(), 5);
    assert_eq!(metrics.written_bytes(), 83);
    assert_eq!(metrics.reallocations(), 1);
    assert_eq!(buffer.capacity(), 128);
    assert_eq!(buffer.len(), 83);
}

#[test]
fn script_close_tag_is_escaped() {
    assert_eq!(escaped("</script>"), "<\\/script>");
    assert_eq!(escaped("a</SCRIPT></ScRiPt x"), "a<\\/SCRIPT><\\/ScRiPt x");
    assert_eq!(escaped("</scrip"), "</scrip");
    assert_eq!(escaped("</scripT"), "<\\/scripT");
    assert_eq!(escaped("<</script"), "<<\\/script");
    assert_eq!(escaped("é</script>é"), "é<\\/script>é");
    assert_eq!(escaped("</ script>"), "</ script>");
    assert_eq!(escaped(""), "");
    assert!(is_script_close_at(b"x</script", 1));
    assert!(!is_script_close_at(b"x</script", 0));
    assert!(!is_script_close_at(b"</scrip", 0));
}

#[test]
fn escaped_text_holds_no_script_close_tag() {
    for text in ["</script>", "<</script</script", "</scr</script>ipt>", "a</SCRIPT"] {
        let out = escaped(text);
        assert!(!out.to_ascii_lowercase().contains("</script"), "{out}");
    }
}

#[test]
fn lines_end_at_every_terminator() {
    assert_eq!(lines("a\nb"), vec!["a", "b"]);
    assert_eq!(lines("a\r\nb\rc"), vec!["a", "b", "c"]);
    assert_eq!(lines("a\u{2028}b\u{2029}c"), vec!["a", "b", "c"]);
    assert_eq!(lines("a\n"), vec!["a"]);
    assert_eq!(lines("\n\na"), vec!["", "", "a"]);
    assert_eq!(lines("é\u{2028}\r\n"), vec!["é", ""]);
    assert_eq!(lines(""), Vec::<String>::new());
    assert_eq!(find_ascii_break(b"ab\rc\n"), Some(2));
    assert_eq!(find_ascii_break(b"abc"), None);
    assert_eq!(find_unicode_break("ab\u{2029}".as_bytes()), Some(2));
    assert_eq!(find_unicode_break(&[0xE2, 0x80]), None);
    assert_eq!(find_unicode_break("a\u{2026}".as_bytes()), None);
    assert_eq!(find_byte(b"abca", b'a'), Some(0));
    assert_eq!(find_byte(b"abca", b'c'), Some(2));
    assert_eq!(find_byte(b"abca", b'x'), None);
}

#[test]
fn pieces_of_text() {
    assert_eq!(str_slice("héllo", 0, 1), Some("h"));
    assert_eq!(str_slice("héllo", 1, 3), Some("é"));
    assert_eq!(str_slice("héllo", 1, 2), None);
    assert_eq!(str_slice("héllo", 2, 3), None);
    assert_eq!(str_slice("héllo", 3, 6), Some("llo"));
    assert_eq!(str_slice("héllo", 6, 6), Some(""));
    assert_eq!(str_slice("héllo", 4, 7), None);
    assert_eq!(str_slice("héllo", 3, 2), None);
    assert!(str_equal("ab", "ab"));
    assert!(!str_equal("ab", "aB"));
    assert!(bytes_eq(b"", b""));
    assert!(!bytes_eq(b"a", b"ab"));
    assert!(starts_with(b"/* a */", b"/*"));
    assert!(!starts_with(b"/", b"/*"));
    assert!(ends_with(b"/* a */", b"*/"));
    assert!(!ends_with(b"/* a *", b"*/"));
    assert!(is_all_ascii(b"abc"));
    assert!(!is_all_ascii("é".as_bytes()));
    assert_eq!(ascii_lower(b'A'), b'a');
    assert_eq!(ascii_lower(b'['), b'[');
    assert!(starts_with_script("ScRiPt>"));
    assert!(!starts_with_script("scrip"));
    assert!(!starts_with_script("scripé"));
}

#[test]
fn identifier_characters() {
    assert!(is_identifier_part_ascii(b'a'));
    assert!(is_identifier_part_ascii(b'$'));
    assert!(is_identifier_part_ascii(b'0'));
    assert!(!is_identifier_part_ascii(b'-'));
    assert!(is_identifier_part('_'));
    assert!(is_identifier_part('é'));
    assert!(is_identifier_part('\u{200c}'));
    assert!(!is_identifier_part('☃'));
    assert!(!is_identifier_part(' '));
}

#[test]
fn quotes_are_chosen_by_cost() {
    assert_eq!(choose_quote("abc", Quote::Double), Quote::Double);
    assert_eq!(choose_quote("abc", Quote::Single), Quote::Single);
    assert_eq!(choose_quote("a\"b", Quote::Double), Quote::Single);
    assert_eq!(choose_quote("a'b", Quote::Single), Quote::Double);
    assert_eq!(choose_quote("'\"", Quote::Single), Quote::Single);
    let mut buffer = FastBuffer::new();
    print_quoted(&mut buffer, "it's", Quote::Single);
    assert_eq!(buffer.into_string(), "'it\\'s'");
}
