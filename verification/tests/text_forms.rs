use mipsy_interactive::printer::{
    format_simple_print, format_string, parse_print_type, PrintType,
};
use mipsy_interactive::error::{MipsyError, RuntimeError};
use mipsy_interactive::state::RuntimeState;
use mipsy_interactive::text::{
    decimal_string, push_ascii_escape, push_ascii_escape_all, push_char_escape,
    push_char_escape_all, push_decimal, push_hex_digits, push_hex_fixed, push_padded,
};

fn samples() -> Vec<i32> {
    vec![
        0, 1, -1, 9, 10, 15, 16, 127, 128, 255, 256, 4095, 65535, 65536, 0x1234_5678, -0x1234_5678,
        i32::MAX, i32::MIN, -255, -256, 1_000_000_007,
    ]
}

#[test]
fn xbyte_is_two_digits_of_the_low_byte() {
    for v in samples() {
        let expected = format!("{:02x}", (v as u32) & 0xFF);
        assert_eq!(format_simple_print(v, PrintType::XByte), expected);
        assert_eq!(format_simple_print(v, PrintType::XByte).len(), 2);
    }
    assert_eq!(format_simple_print(0x1234_5678, PrintType::XByte), "78");
    assert_eq!(format_simple_print(-1, PrintType::XByte), "ff");
}

#[test]
fn xhalf_is_four_digits_of_the_low_half() {
    for v in samples() {
        let expected = format!("{:04x}", (v as u32) & 0xFFFF);
        assert_eq!(format_simple_print(v, PrintType::XHalf), expected);
    }
    assert_eq!(format_simple_print(0x1234_5678, PrintType::XHalf), "5678");
    assert_eq!(format_simple_print(5, PrintType::XHalf), "0005");
}

#[test]
fn xword_is_eight_digits_of_the_unsigned_cell() {
    for v in samples() {
        let expected = format!("{:08x}", v as u32);
        assert_eq!(format_simple_print(v, PrintType::XWord), expected);
    }
    assert_eq!(format_simple_print(-1, PrintType::XWord), "ffffffff");
    assert_eq!(format_simple_print(i32::MIN, PrintType::XWord), "80000000");
    assert_eq!(format_simple_print(0, PrintType::XWord), "00000000");
}

#[test]
fn word_is_the_signed_decimal_numeral() {
    for v in samples() {
        assert_eq!(format_simple_print(v, PrintType::Word), format!("{}", v));
    }
    assert_eq!(format_simple_print(-1, PrintType::Word), "-1");
    assert_eq!(format_simple_print(i32::MIN, PrintType::Word), "-2147483648");
    assert_eq!(format_simple_print(i32::MAX, PrintType::Word), "2147483647");
}

#[test]
fn byte_and_half_are_masked_and_unsigned() {
    for v in samples() {
        assert_eq!(format_simple_print(v, PrintType::Byte), format!("{}", v & 0xFF));
        assert_eq!(format_simple_print(v, PrintType::Half), format!("{}", v & 0xFFFF));
    }
    assert_eq!(format_simple_print(-1, PrintType::Byte), "255");
    assert_eq!(format_simple_print(-1, PrintType::Half), "65535");
    assert_eq!(format_simple_print(0x1234_5678, PrintType::Byte), "120");
}

#[test]
fn char_is_the_low_byte_escaped_in_quotes() {
    assert_eq!(format_simple_print(0x41, PrintType::Char), "'A'");
    assert_eq!(format_simple_print(0x1234_5641, PrintType::Char), "'A'");
    assert_eq!(format_simple_print(10, PrintType::Char), "'\\n'");
    assert_eq!(format_simple_print(9, PrintType::Char), "'\\t'");
    assert_eq!(format_simple_print(13, PrintType::Char), "'\\r'");
    assert_eq!(format_simple_print(39, PrintType::Char), "'\\''");
    assert_eq!(format_simple_print(34, PrintType::Char), "'\\\"'");
    assert_eq!(format_simple_print(92, PrintType::Char), "'\\\\'");
    assert_eq!(format_simple_print(0, PrintType::Char), "'\\x00'");
    assert_eq!(format_simple_print(200, PrintType::Char), "'\\xc8'");
    assert_eq!(format_simple_print(-1, PrintType::Char), "'\\xff'");
    for v in 0..=255 {
        let expected = format!("'{}'", std::ascii::escape_default(v as u8));
        assert_eq!(format_simple_print(v, PrintType::Char), expected);
    }
}

#[test]
fn hexadecimal_forms_are_digits_and_nothing_else() {
    for v in samples() {
        let byte = format_simple_print(v, PrintType::XByte);
        let half = format_simple_print(v, PrintType::XHalf);
        let word = format_simple_print(v, PrintType::XWord);
        assert_eq!(byte.len(), 2);
        assert_eq!(half.len(), 4);
        assert_eq!(word.len(), 8);
        assert_eq!(u32::from_str_radix(&byte, 16), Ok((v as u32) & 0xFF));
        assert_eq!(u32::from_str_radix(&half, 16), Ok((v as u32) & 0xFFFF));
        assert_eq!(u32::from_str_radix(&word, 16), Ok(v as u32));
        assert!(!word.contains('-'));
    }
    assert_eq!(format_simple_print(42, PrintType::XByte), "2a");
}

#[test]
fn print_types_have_long_and_short_names() {
    assert_eq!(parse_print_type("byte"), Some(PrintType::Byte));
    assert_eq!(parse_print_type("b"), Some(PrintType::Byte));
    assert_eq!(parse_print_type("half"), Some(PrintType::Half));
    assert_eq!(parse_print_type("h"), Some(PrintType::Half));
    assert_eq!(parse_print_type("word"), Some(PrintType::Word));
    assert_eq!(parse_print_type("w"), Some(PrintType::Word));
    assert_eq!(parse_print_type("xbyte"), Some(PrintType::XByte));
    assert_eq!(parse_print_type("xb"), Some(PrintType::XByte));
    assert_eq!(parse_print_type("xhalf"), Some(PrintType::XHalf));
    assert_eq!(parse_print_type("xh"), Some(PrintType::XHalf));
    assert_eq!(parse_print_type("xword"), Some(PrintType::XWord));
    assert_eq!(parse_print_type("xw"), Some(PrintType::XWord));
    assert_eq!(parse_print_type("hex"), Some(PrintType::XWord));
    assert_eq!(parse_print_type("x"), Some(PrintType::XWord));
    assert_eq!(parse_print_type("char"), Some(PrintType::Char));
    assert_eq!(parse_print_type("c"), Some(PrintType::Char));
    assert_eq!(parse_print_type("string"), Some(PrintType::Str));
    assert_eq!(parse_print_type("s"), Some(PrintType::Str));
    assert_eq!(parse_print_type("Word"), None);
    assert_eq!(parse_print_type(""), None);
    assert_eq!(parse_print_type("float"), None);
    assert_eq!(parse_print_type("xx"), None);
}

#[test]
fn decimal_numerals_agree_with_the_standard_ones() {
    let values: Vec<i64> =
        vec![0, 7, -7, 10, 99, 100, -100, 4294967295, i64::MAX, i64::MIN, -2147483648];
    for v in values {
        assert_eq!(decimal_string(v), format!("{}", v));
        let mut s = String::from("<");
        push_decimal(&mut s, v);
        assert_eq!(s, format!("<{}", v));
    }
    assert_eq!(decimal_string(i64::MIN), "-9223372036854775808");
}

#[test]
fn hexadecimal_numerals_agree_with_the_standard_ones() {
    let values: Vec<u32> = vec![0, 9, 10, 15, 16, 255, 0x80, 0x20AC, 0x10FFFF, u32::MAX];
    for v in values {
        let mut s = String::new();
        push_hex_digits(&mut s, v);
        assert_eq!(s, format!("{:x}", v));
        let mut t = String::from("0x");
        push_hex_fixed(&mut t, v, 8);
        assert_eq!(t, format!("0x{:08x}", v));
    }
    let mut low = String::new();
    push_hex_fixed(&mut low, 0x1234, 2);
    assert_eq!(low, "34");
    let mut none = String::from("k");
    push_hex_fixed(&mut none, 0x1234, 0);
    assert_eq!(none, "k");
}

#[test]
fn bytes_are_escaped_as_the_standard_library_escapes_them() {
    for b in 0..=255u8 {
        let mut s = String::new();
        push_ascii_escape(&mut s, b);
        assert_eq!(s, std::ascii::escape_default(b).to_string());
    }
    let mut all = String::from(">");
    push_ascii_escape_all(&mut all, &[b'a', 0, b'\n', 0xff, b'"']);
    assert_eq!(all, ">a\\x00\\n\\xff\\\"");
}

#[test]
fn characters_are_escaped_as_the_standard_library_escapes_them() {
    let chars = vec![
        'a', ' ', '~', '\t', '\r', '\n', '\'', '"', '\\', '\0', '\u{7f}', '\u{80}', '\u{e9}',
        '\u{20ac}', '\u{fffd}', '\u{10ffff}',
    ];
    for c in chars {
        let mut s = String::new();
        push_char_escape(&mut s, c);
        assert_eq!(s, c.escape_default().to_string());
    }
    let mut nul = String::new();
    push_char_escape(&mut nul, '\0');
    assert_eq!(nul, "\\u{0}");
    let text = "tab\there \u{e9}\u{20ac} \"q\"\n";
    let mut all = String::new();
    push_char_escape_all(&mut all, text);
    assert_eq!(all, text.escape_default().to_string());
    assert_eq!(all, "tab\\there \\u{e9}\\u{20ac} \\\"q\\\"\\n");
}

#[test]
fn padding_fills_up_to_the_width_and_never_cuts() {
    let mut s = String::new();
    push_padded(&mut s, "t0", 4);
    assert_eq!(s, "t0  ");
    let mut z = String::new();
    push_padded(&mut z, "zero", 4);
    assert_eq!(z, "zero");
    let mut long = String::new();
    push_padded(&mut long, "longer", 4);
    assert_eq!(long, "longer");
    let mut pc = String::new();
    push_padded(&mut pc, "pc\n", 4);
    assert_eq!(pc, format!("{:4}", "pc\n"));
    let mut accents = String::new();
    push_padded(&mut accents, "\u{e9}", 3);
    assert_eq!(accents, format!("{:3}", "\u{e9}"));
}

fn memory(start: u32, bytes: &[u8]) -> RuntimeState {
    let mut state = RuntimeState::new(0x0040_0000);
    let mut addr = start;
    for b in bytes {
        state.set_byte(addr, *b);
        addr = addr.wrapping_add(1);
    }
    state
}

#[test]
fn a_string_without_terminator_comes_back_as_an_error_with_its_text() {
    let state = memory(0x1001_0000, &[0x41, 0x42]);
    let r = format_string(&state, 0x1001_0000);
    assert_eq!(
        r,
        Err(MipsyError::Runtime(RuntimeError::UnterminatedString {
            good_parts: String::from("AB")
        }))
    );
}

#[test]
fn a_terminated_string_is_escaped_and_quoted() {
    let state = memory(0x1001_0000, &[b'h', b'i', b'\n', 0xff, b'"', 0, b'x']);
    assert_eq!(format_string(&state, 0x1001_0000), Ok(String::from("\"hi\\n\\xff\\\"\"")));
    assert_eq!(format_string(&state, 0x1001_0005), Ok(String::from("\"\"")));
    assert_eq!(format_string(&state, 0x1001_0001), Ok(String::from("\"i\\n\\xff\\\"\"")));
}

#[test]
fn a_string_at_an_unreadable_address_has_no_text() {
    let state = memory(0x1001_0000, &[b'a', 0]);
    assert_eq!(
        format_string(&state, 0x2000_0000),
        Err(MipsyError::Runtime(RuntimeError::UnterminatedString { good_parts: String::new() }))
    );
}

#[test]
fn a_string_that_runs_to_the_end_of_memory_has_no_terminator() {
    let state = memory(0xFFFF_FFFF, &[b'k']);
    assert_eq!(
        format_string(&state, 0xFFFF_FFFF),
        Err(MipsyError::Runtime(RuntimeError::UnterminatedString {
            good_parts: String::from("k")
        }))
    );
    let mut full = RuntimeState::new(0);
    full.set_byte(0xFFFF_FFFE, b'o');
    full.set_byte(0xFFFF_FFFF, b'k');
    assert_eq!(
        format_string(&full, 0xFFFF_FFFE),
        Err(MipsyError::Runtime(RuntimeError::UnterminatedString {
            good_parts: String::from("ok")
        }))
    );
}
