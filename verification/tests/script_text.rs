use icy_animation::text::{chars_of, hex_digit, push_decimal};
use icy_animation::{color_triple, preprocess, ScriptError, COLOR_LITERAL_PATTERN};

#[test]
fn colour_literal_becomes_a_decimal_triple() {
    assert_eq!(preprocess("#FF00AA"), "255,0,170");
    assert_eq!(preprocess("buf:fg_rgb(#FF00AA)"), "buf:fg_rgb(255,0,170)");
    assert_eq!(preprocess("\"#FF00AA\""), "\"255,0,170\"");
}

#[test]
fn colour_literals_in_a_script() {
    let script = "local a = #000000\nbuf:bg_rgb(#ffFFff) -- héllo #12345\nx = #0a0B0c#102030";
    let expected =
        "local a = 0,0,0\nbuf:bg_rgb(255,255,255) -- héllo #12345\nx = 10,11,1216,32,48";
    assert_eq!(preprocess(script), expected);
}

#[test]
fn text_without_literals_stays() {
    assert_eq!(preprocess(""), "");
    assert_eq!(preprocess("next_frame(buf)"), "next_frame(buf)");
    assert_eq!(preprocess("#GG0000 #12 # ##"), "#GG0000 #12 # ##");
}

#[test]
fn a_literal_takes_six_digits_and_no_more() {
    assert_eq!(preprocess("#1234567"), "18,52,867");
    assert_eq!(preprocess("##AABBCC"), "#170,187,204");
}

#[test]
fn colour_triple_in_decimal() {
    assert_eq!(color_triple("FF", "00", "aa"), "255,0,170");
    assert_eq!(color_triple("09", "10", "Ff"), "9,16,255");
}

#[test]
fn the_pattern_of_a_colour_literal() {
    assert_eq!(COLOR_LITERAL_PATTERN, r"#([0-9a-fA-F]{2})([0-9a-fA-F]{2})([0-9a-fA-F]{2})");
}

#[test]
fn hexadecimal_digits() {
    assert_eq!(hex_digit('0'), Some(0));
    assert_eq!(hex_digit('9'), Some(9));
    assert_eq!(hex_digit('a'), Some(10));
    assert_eq!(hex_digit('f'), Some(15));
    assert_eq!(hex_digit('A'), Some(10));
    assert_eq!(hex_digit('F'), Some(15));
    assert_eq!(hex_digit('g'), None);
    assert_eq!(hex_digit('G'), None);
    assert_eq!(hex_digit('/'), None);
    assert_eq!(hex_digit(':'), None);
    assert_eq!(hex_digit('@'), None);
    assert_eq!(hex_digit('`'), None);
}

#[test]
fn decimal_numbers() {
    let mut text = String::from("n=");
    push_decimal(&mut text, 0);
    push_decimal(&mut text, 7);
    push_decimal(&mut text, 10);
    push_decimal(&mut text, 4096);
    assert_eq!(text, "n=07104096");
    let mut text = String::new();
    push_decimal(&mut text, usize::MAX);
    assert_eq!(text, usize::MAX.to_string());
}

#[test]
fn characters_of_a_text() {
    assert_eq!(chars_of("aé€"), vec!['a', 'é', '€']);
    assert!(chars_of("").is_empty());
}

#[test]
fn error_messages() {
    assert_eq!(
        ScriptError::OutOfRange { index: 12, count: 3, current: false }.message(),
        "Layer 12 out of range (0..<3)"
    );
    assert_eq!(
        ScriptError::OutOfRange { index: 0, count: 0, current: true }.message(),
        "Current layer 0 out of range (0..<0)"
    );
    assert_eq!(ScriptError::InvalidInput.message(), "Empty string");
    assert_eq!(
        ScriptError::NotFound { file: "a/b.ans".to_string() }.message(),
        "File not found a/b.ans"
    );
    assert_eq!(
        ScriptError::LoadFailed { file: "a/b.ans".to_string() }.message(),
        "Could not load file a/b.ans"
    );
    assert_eq!(ScriptError::FrameLimitExceeded.message(), "Maximum number of frames reached");
    assert_eq!(
        ScriptError::TypeMismatch { found: "Nil".to_string() }.message(),
        "UserData parameter required, got: Nil"
    );
}

#[test]
fn errors_of_a_wrong_call() {
    assert!(ScriptError::OutOfRange { index: 1, count: 1, current: true }.is_syntax_error());
    assert!(ScriptError::InvalidInput.is_syntax_error());
    assert!(!ScriptError::FrameLimitExceeded.is_syntax_error());
    assert!(!ScriptError::NotFound { file: String::new() }.is_syntax_error());
    assert!(!ScriptError::LoadFailed { file: String::new() }.is_syntax_error());
    assert!(!ScriptError::TypeMismatch { found: String::new() }.is_syntax_error());
}
