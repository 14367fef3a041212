use real_c_string::{
    real_c_string, real_c_wstring, transform, CLiteral, InputLit, MacroError, RealCString,
    TransformType,
};

fn narrow(s: &str) -> Vec<i8> {
    real_c_string(Some(InputLit::Str(String::from(s)))).unwrap()
}

fn wide(s: &str) -> Vec<i16> {
    real_c_wstring(Some(InputLit::Str(String::from(s)))).unwrap()
}

#[test]
fn empty_string_narrow_is_lone_terminator() {
    assert_eq!(narrow(""), vec![0i8]);
}

#[test]
fn empty_string_wide_is_lone_terminator() {
    assert_eq!(wide(""), vec![0i16]);
}

#[test]
fn hello_world_narrow() {
    assert_eq!(
        narrow("Hello world!"),
        vec![72i8, 101, 108, 108, 111, 32, 119, 111, 114, 108, 100, 33, 0]
    );
}

#[test]
fn cyrillic_narrow_substitutes_question_marks() {
    assert_eq!(
        narrow("Привет world!"),
        vec![63i8, 63, 63, 63, 63, 63, 32, 119, 111, 114, 108, 100, 33, 0]
    );
}

#[test]
fn cyrillic_wide_fits_without_substitution() {
    assert_eq!(
        wide("Привет world!"),
        vec![1055i16, 1088, 1080, 1074, 1077, 1090, 32, 119, 111, 114, 108, 100, 33, 0]
    );
}

#[test]
fn same_literal_gives_identical_output() {
    assert_eq!(narrow("Привет world!"), narrow("Привет world!"));
    assert_eq!(wide("Привет world!"), wide("Привет world!"));
}

#[test]
fn narrow_truncates_high_byte_to_negative() {
    // U+00FF is within the narrow range, so it is kept, and the raw
    // truncating cast reads its low byte as -1.
    assert_eq!(narrow("ÿ"), vec![-1i8, 0]);
}

#[test]
fn wide_truncates_high_code_unit_to_negative() {
    // U+FFFD is within the wide range; its low sixteen bits read as a
    // signed value give -3.
    assert_eq!(wide("\u{FFFD}"), vec![-3i16, 0]);
}

#[test]
fn wide_substitutes_only_above_bmp() {
    // U+1F600 exceeds 0xFFFF and becomes '?'; U+FFFF itself is kept.
    assert_eq!(wide("\u{1F600}"), vec![63i16, 0]);
    assert_eq!(wide("\u{FFFF}"), vec![-1i16, 0]);
}

#[test]
fn no_input_fails_with_no_input_error() {
    assert_eq!(real_c_string(None), Err(MacroError::NoInput));
    assert_eq!(real_c_wstring(None), Err(MacroError::NoInput));
}

#[test]
fn non_string_literal_fails_with_wrong_kind_error() {
    assert_eq!(
        real_c_string(Some(InputLit::Other)),
        Err(MacroError::WrongLiteralKind)
    );
    assert_eq!(
        real_c_wstring(Some(InputLit::Other)),
        Err(MacroError::WrongLiteralKind)
    );
}

#[test]
fn parse_accepts_only_string_literals() {
    let ok = RealCString::parse(InputLit::Str(String::from("abc"))).unwrap();
    assert_eq!(ok.string, "abc");
    assert!(matches!(
        RealCString::parse(InputLit::Other),
        Err(MacroError::WrongLiteralKind)
    ));
}

#[test]
fn max_char_per_transform_type() {
    assert_eq!(TransformType::CString.max_char(), 0xff);
    assert_eq!(TransformType::CWString.max_char(), 0xffff);
}

#[test]
fn transform_returns_variant_matching_type() {
    let input = RealCString {
        string: String::from("a"),
    };
    match transform(input, '?', TransformType::CString) {
        CLiteral::CString(v) => assert_eq!(v, vec![97i8, 0]),
        CLiteral::CWString(_) => panic!("narrow transform produced wide elements"),
    }
    let input = RealCString {
        string: String::from("a"),
    };
    match transform(input, '?', TransformType::CWString) {
        CLiteral::CWString(v) => assert_eq!(v, vec![97i16, 0]),
        CLiteral::CString(_) => panic!("wide transform produced narrow elements"),
    }
}

#[test]
fn substitution_character_is_truncated_too() {
    // A substitution character above the narrow maximum (U+0100) has its
    // own code truncated: the low byte of 0x100 is 0.
    let input = RealCString {
        string: String::from("\u{1F600}"),
    };
    match transform(input, '\u{100}', TransformType::CString) {
        CLiteral::CString(v) => assert_eq!(v, vec![0i8, 0]),
        CLiteral::CWString(_) => panic!("narrow transform produced wide elements"),
    }
}
