use oxc_codegen::number::{
    contains_dot_e_or_x, find_from, format_lower_hex, minified_number, parse_exponent_text,
    strip_exponent_plus,
};

fn minified(shortest: &str, integer: Option<u128>) -> String {
    String::from_utf8(minified_number(shortest.as_bytes(), integer)).unwrap()
}

fn shortest_of(x: f64) -> String {
    dragonbox_ecma::Buffer::new().format(x).to_string()
}

fn minified_float(x: f64) -> String {
    let integer = if x.fract() == 0.0 { Some(x as u128) } else { None };
    minified(&shortest_of(x), integer)
}

#[test]
fn hexadecimal_text() {
    assert_eq!(format_lower_hex(0), b"0x0");
    assert_eq!(format_lower_hex(255), b"0xff");
    assert_eq!(format_lower_hex(4096), b"0x1000");
    assert_eq!(format_lower_hex(u128::MAX), b"0xffffffffffffffffffffffffffffffff");
}

#[test]
fn exponent_loses_its_plus() {
    assert_eq!(strip_exponent_plus(b"1e+21"), b"1e21");
    assert_eq!(strip_exponent_plus(b"1E+5e+6"), b"1E5e+6");
    assert_eq!(strip_exponent_plus(b"1e-7"), b"1e-7");
    assert_eq!(strip_exponent_plus(b"e+"), b"e");
    assert_eq!(strip_exponent_plus(b""), b"");
}

#[test]
fn exponent_text_is_read() {
    assert_eq!(parse_exponent_text(b"21"), Some(21));
    assert_eq!(parse_exponent_text(b"-7"), Some(-7));
    assert_eq!(parse_exponent_text(b"+7"), Some(7));
    assert_eq!(parse_exponent_text(b""), None);
    assert_eq!(parse_exponent_text(b"-"), None);
    assert_eq!(parse_exponent_text(b"1x"), None);
    assert_eq!(parse_exponent_text(b"999999999999999"), Some(999_999_999_999_999));
    assert_eq!(parse_exponent_text(b"1000000000000000"), None);
}

#[test]
fn bytes_are_found() {
    assert_eq!(find_from(b"a.b.c", b'.', 0), 1);
    assert_eq!(find_from(b"a.b.c", b'.', 2), 3);
    assert_eq!(find_from(b"a.b.c", b'x', 0), 5);
    assert!(contains_dot_e_or_x(b"1e3"));
    assert!(contains_dot_e_or_x(b"0xff"));
    assert!(contains_dot_e_or_x(b".5"));
    assert!(!contains_dot_e_or_x(b"12345"));
}

#[test]
fn each_form_is_taken_where_it_is_shorter() {
    assert_eq!(minified("12", Some(12)), "12");
    assert_eq!(minified("100000", Some(100000)), "1e5");
    assert_eq!(minified("0.5", None), ".5");
    assert_eq!(minified("0.000001", None), "1e-6");
    assert_eq!(minified("0.00012", None), "12e-5");
    assert_eq!(minified("0.01", None), ".01");
    assert_eq!(minified("1.5e+21", None), "15e20");
    assert_eq!(minified("1.25e-7", None), "125e-9");
    assert_eq!(minified("281474976710655", Some(281474976710655)), "0xffffffffffff");
    assert_eq!(minified("1234", Some(1234)), "1234");
    assert_eq!(minified("1e+21", Some(u128::MAX)), "1e21");
    assert_eq!(minified("1200", Some(1200)), "1200");
    assert_eq!(minified("12000", Some(12000)), "12e3");
}

#[test]
fn minified_number_is_never_longer_than_the_decimal_text() {
    let samples = [
        0.0, 1.0, 999.0, 1000.0, 1e21, 1.5e300, 5e-324, 0.1, 0.000123, 123456789.0,
        9007199254740992.0, 1.7976931348623157e308, 65536.0, 4294967295.0, 0.5, 1e100, 255.5,
    ];
    for x in samples {
        let shortest = shortest_of(x);
        let out = minified_float(x);
        assert!(out.len() <= shortest.len(), "{out} is longer than {shortest}");
    }
}

#[test]
fn minified_number_reads_back_as_the_same_number() {
    let samples = [
        0.0, 1.0, 1000.0, 1e21, 1.5e300, 5e-324, 0.1, 0.000123, 123456789.0, 0.5, 1e100, 255.5,
        1.25e-7, 12000.0, 0.00012,
    ];
    for x in samples {
        let out = minified_float(x);
        let back: f64 = if let Some(hex) = out.strip_prefix("0x") {
            u128::from_str_radix(hex, 16).unwrap() as f64
        } else {
            let text = if out.starts_with('.') { format!("0{out}") } else { out.clone() };
            text.parse().unwrap()
        };
        assert_eq!(back, x, "{out}");
    }
}
