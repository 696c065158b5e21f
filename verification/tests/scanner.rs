use oxc_codegen::hot::{
    choose_backend, heuristic_prefetch, is_ident_continue_ascii, is_ident_start_ascii, name,
    prefetch_distance, ws_default_enabled, Backend, Scanner, SpobShadow,
};
use oxc_codegen::token::{Tok, TokKind, Tokenizer};

fn tokens(source: &str) -> Vec<Tok> {
    let mut tokenizer = Tokenizer::new(Scanner::new(source.as_bytes()));
    let mut out = Vec::new();
    loop {
        let tok = tokenizer.next();
        out.push(tok);
        if tok.kind == TokKind::Eof {
            return out;
        }
    }
}

fn kinds(source: &str) -> Vec<TokKind> {
    tokens(source).into_iter().map(|t| t.kind).collect()
}

#[test]
fn backend_names() {
    assert_eq!(name(Backend::Scalar), "scalar");
    assert_eq!(name(Backend::Avx2), "avx2");
    assert_eq!(name(Backend::Avx512), "avx512");
}

#[test]
fn backend_is_chosen_by_setting_then_by_machine() {
    assert_eq!(choose_backend(Some("AVX2"), true, true), Backend::Avx2);
    assert_eq!(choose_backend(Some("avx-512"), false, false), Backend::Avx512);
    assert_eq!(choose_backend(Some("Scalar"), true, true), Backend::Scalar);
    assert_eq!(choose_backend(Some("neon"), true, true), Backend::Avx512);
    assert_eq!(choose_backend(None, false, true), Backend::Avx2);
    assert_eq!(choose_backend(None, false, false), Backend::Scalar);
}

#[test]
fn prefetch_settings() {
    assert_eq!(prefetch_distance(None), 128);
    assert_eq!(prefetch_distance(Some(64)), 64);
    assert_eq!(prefetch_distance(Some(4096)), 512);
    assert_eq!(heuristic_prefetch(b""), 128);
    assert_eq!(heuristic_prefetch(b"abcdefghijklmnopqrstuvwxyz"), 96);
    assert_eq!(heuristic_prefetch(b"a b c d e"), 128);
    assert!(!ws_default_enabled());
}

#[test]
fn shadow_follows_the_scanner() {
    let mut shadow = SpobShadow::default();
    shadow.advance_to(3);
    shadow.advance_to(3);
    shadow.advance_to(10);
    assert_eq!(shadow.last_advanced, 10);
}

#[test]
fn identifier_bytes() {
    assert!(is_ident_start_ascii(b'a'));
    assert!(is_ident_start_ascii(b'Z'));
    assert!(is_ident_start_ascii(b'_'));
    assert!(is_ident_start_ascii(b'$'));
    assert!(!is_ident_start_ascii(b'1'));
    assert!(!is_ident_start_ascii(b'-'));
    assert!(is_ident_continue_ascii(b'9'));
    assert!(!is_ident_continue_ascii(b' '));
    assert!(!is_ident_continue_ascii(0xC3));
}

#[test]
fn scanner_reads_bytes_in_order() {
    let mut scan = Scanner::new(b"ab");
    assert!(!scan.is_eof());
    assert_eq!(scan.peek(), b'a');
    assert_eq!(scan.bump(), Some(b'a'));
    assert_eq!(scan.byte_at(1), Some(b'b'));
    assert_eq!(scan.byte_at(2), None);
    assert_eq!(scan.bump(), Some(b'b'));
    assert!(scan.is_eof());
    assert_eq!(scan.peek(), 0);
    assert_eq!(scan.bump(), None);
    assert_eq!(scan.idx(), 2);
    assert_eq!(scan.slice_from(1), b"b");
    assert_eq!(scan.raw(), b"ab");
    assert_eq!(scan.backend(), Backend::Scalar);
}

#[test]
fn scanner_skips_classes_of_bytes() {
    let mut scan = Scanner::new(b" \t\r\nlet9$ x 12.5.x 'a\\'b' z");
    scan.skip_ws();
    assert_eq!(scan.idx(), 4);
    scan.skip_ws();
    assert_eq!(scan.idx(), 4);
    assert!(!scan.eat_kw(b"le"));
    assert!(!scan.eat_kw(b"let"));
    scan.advance_ident_continue();
    assert_eq!(scan.slice_from(4), b"let9$");
    scan.advance_by(1);
    assert!(scan.eat_kw(b"x"));
    scan.skip_ws();
    scan.advance_digits_or_dot();
    assert_eq!(scan.slice_from(12), b"12.5.");
    scan.advance_by(3);
    let start = scan.idx();
    scan.scan_string_simple(b'\'');
    assert_eq!(scan.slice_from(start), b"a\\'b'");
    scan.scan_string_simple(b'"');
    assert!(scan.is_eof());
}

#[test]
fn keyword_is_not_eaten_inside_a_name() {
    let mut scan = Scanner::new(b"letter let");
    assert!(!scan.eat_kw(b"let"));
    assert_eq!(scan.idx(), 0);
    scan.advance_by(7);
    assert!(scan.eat_kw(b"let"));
    assert_eq!(scan.idx(), 10);
    assert!(!scan.eat_kw(b"let"));
}

#[test]
fn tokens_of_a_declaration() {
    assert_eq!(
        tokens("let x = 1;"),
        vec![
            Tok { kind: TokKind::KwLet, start: 0, end: 3 },
            Tok { kind: TokKind::Ident, start: 4, end: 5 },
            Tok { kind: TokKind::Assign, start: 6, end: 7 },
            Tok { kind: TokKind::Num, start: 8, end: 9 },
            Tok { kind: TokKind::Semi, start: 9, end: 10 },
            Tok { kind: TokKind::Eof, start: 10, end: 10 },
        ]
    );
}

#[test]
fn tokens_of_a_string_statement() {
    assert_eq!(
        tokens("'hi';"),
        vec![
            Tok { kind: TokKind::Str, start: 0, end: 4 },
            Tok { kind: TokKind::Semi, start: 4, end: 5 },
            Tok { kind: TokKind::Eof, start: 5, end: 5 },
        ]
    );
}

#[test]
fn comments_and_white_space_are_left_out() {
    assert_eq!(
        kinds("// a\n /* b */ ( ) /* open"),
        vec![TokKind::LParen, TokKind::RParen, TokKind::Eof]
    );
    assert_eq!(kinds("a/b"), vec![TokKind::Ident, TokKind::Slash, TokKind::Ident, TokKind::Eof]);
    assert_eq!(kinds("/**/"), vec![TokKind::Eof]);
    assert_eq!(kinds("/*/ x"), vec![TokKind::Eof]);
    assert_eq!(kinds("//"), vec![TokKind::Eof]);
}

#[test]
fn every_kind_of_token() {
    assert_eq!(
        kinds("{ } , + - * letx let$ 3.14 \"s\\\"t\" @ é"),
        vec![
            TokKind::LBrace,
            TokKind::RBrace,
            TokKind::Comma,
            TokKind::Plus,
            TokKind::Minus,
            TokKind::Star,
            TokKind::Ident,
            TokKind::Ident,
            TokKind::Num,
            TokKind::Str,
            TokKind::Other,
            TokKind::Other,
            TokKind::Other,
            TokKind::Eof,
        ]
    );
    assert_eq!(Tokenizer::punct_lut(b'='), TokKind::Assign);
    assert_eq!(Tokenizer::punct_lut(b'a'), TokKind::Other);
}

#[test]
fn end_of_text_is_reported_again_and_again() {
    let mut tokenizer = Tokenizer::new(Scanner::new(b"x "));
    assert_eq!(tokenizer.next().kind, TokKind::Ident);
    assert_eq!(tokenizer.next(), Tok { kind: TokKind::Eof, start: 2, end: 2 });
    assert_eq!(tokenizer.next(), Tok { kind: TokKind::Eof, start: 2, end: 2 });
}
