use oxc_codegen::fast_buffer::{FastBuffer, IndentChar};

#[test]
fn buffer_appends_text() {
    let mut buffer = FastBuffer::new();
    buffer.print_str("let x");
    buffer.print_ascii_byte(b';');
    assert_eq!(buffer.len(), 6);
    assert_eq!(buffer.last_byte(), Some(b';'));
    assert_eq!(buffer.peek_nth_byte_back(1), Some(b'x'));
    assert_eq!(buffer.into_string(), "let x;");
}

#[test]
fn buffer_indents_with_the_given_character() {
    let mut buffer = FastBuffer::with_indent(IndentChar::Space, 2);
    buffer.print_indent(3);
    assert_eq!(buffer.into_string(), "      ");
}

#[test]
fn buffer_appends_characters_in_utf8() {
    let mut buffer = FastBuffer::new();
    buffer.print_char('a');
    buffer.print_char('é');
    buffer.print_char('☃');
    buffer.print_char('😀');
    assert_eq!(buffer.as_bytes(), "aé☃😀".as_bytes());
    assert_eq!(buffer.last_char(), Some('😀'));
    assert_eq!(buffer.len(), 10);
}
