use mipsy_interactive::error::{CompileError, MipsyError};
use mipsy_interactive::item::{parse_item, to_lower, Item};
use mipsy_interactive::register::Register;

#[test]
fn registers_are_read_by_name_and_by_number() {
    assert_eq!(parse_item("$t0"), Some(Item::NamedRegister(String::from("t0"))));
    assert_eq!(parse_item("$T0"), Some(Item::NamedRegister(String::from("T0"))));
    assert_eq!(parse_item("$all"), Some(Item::NamedRegister(String::from("all"))));
    assert_eq!(parse_item("$pc"), Some(Item::NamedRegister(String::from("pc"))));
    assert_eq!(parse_item("$_a.b1"), Some(Item::NamedRegister(String::from("_a.b1"))));
    assert_eq!(parse_item("$0"), Some(Item::NumberedRegister(0)));
    assert_eq!(parse_item("$12"), Some(Item::NumberedRegister(12)));
    assert_eq!(parse_item("$255"), Some(Item::NumberedRegister(255)));
    assert_eq!(parse_item("$0000012"), Some(Item::NumberedRegister(12)));
    assert_eq!(parse_item("$256"), None);
    assert_eq!(parse_item("$99999999999999999999999"), None);
    assert_eq!(parse_item("$"), None);
    assert_eq!(parse_item("$1a"), None);
    assert_eq!(parse_item("$$t0"), None);
    assert_eq!(parse_item("$t0,"), None);
}

#[test]
fn addresses_are_read_in_decimal_and_in_hexadecimal() {
    assert_eq!(parse_item("4194304"), Some(Item::Address(4194304)));
    assert_eq!(parse_item("0"), Some(Item::Address(0)));
    assert_eq!(parse_item("007"), Some(Item::Address(7)));
    assert_eq!(parse_item("4294967295"), Some(Item::Address(u32::MAX)));
    assert_eq!(parse_item("4294967296"), None);
    assert_eq!(parse_item("000000000000000000000000000004294967295"), Some(Item::Address(u32::MAX)));
    assert_eq!(parse_item("99999999999999999999999999999999999999999"), None);
    assert_eq!(parse_item("0x400000"), Some(Item::Address(0x400000)));
    assert_eq!(parse_item("0X400000"), Some(Item::Address(0x400000)));
    assert_eq!(parse_item("0xDeadBeef"), Some(Item::Address(0xDEAD_BEEF)));
    assert_eq!(parse_item("0xffffffff"), Some(Item::Address(u32::MAX)));
    assert_eq!(parse_item("0x0000000000ffffffff"), Some(Item::Address(u32::MAX)));
    assert_eq!(parse_item("0x100000000"), None);
    assert_eq!(parse_item("0x"), None);
    assert_eq!(parse_item("0xfg"), None);
    assert_eq!(parse_item("x10"), Some(Item::Label(String::from("x10"))));
    assert_eq!(parse_item("1 2"), None);
    assert_eq!(parse_item("+1"), None);
    assert_eq!(parse_item("-1"), Some(Item::Address(u32::MAX)));
    assert_eq!(parse_item("-4"), Some(Item::Address(0xFFFF_FFFC)));
    assert_eq!(parse_item("-0"), Some(Item::Address(0)));
    assert_eq!(parse_item("-0004"), Some(Item::Address((-4i32) as u32)));
    assert_eq!(parse_item("-2147483648"), Some(Item::Address(0x8000_0000)));
    assert_eq!(parse_item("-2147483647"), Some(Item::Address(0x8000_0001)));
    assert_eq!(parse_item("-2147483649"), None);
    assert_eq!(parse_item("-"), None);
    assert_eq!(parse_item("--1"), None);
    assert_eq!(parse_item("-x"), None);
    assert_eq!(parse_item("-0x4"), None);
    assert_eq!(parse_item("$-1"), None);
    assert_eq!(parse_item("\u{661}"), None);
}

#[test]
fn labels_are_names() {
    assert_eq!(parse_item("main"), Some(Item::Label(String::from("main"))));
    assert_eq!(parse_item("_start"), Some(Item::Label(String::from("_start"))));
    assert_eq!(parse_item("loop.end_2"), Some(Item::Label(String::from("loop.end_2"))));
    assert_eq!(parse_item("a"), Some(Item::Label(String::from("a"))));
    assert_eq!(parse_item(".data"), None);
    assert_eq!(parse_item("ma in"), None);
    assert_eq!(parse_item("caf\u{e9}"), None);
    assert_eq!(parse_item(""), None);
    assert_eq!(parse_item("main:"), None);
}

#[test]
fn lower_case_touches_ascii_capitals_only() {
    assert_eq!(to_lower("T0"), "t0");
    assert_eq!(to_lower("AZaz[@`{"), "azaz[@`{");
    assert_eq!(to_lower("\u{c9}T\u{e9}"), "\u{c9}t\u{e9}");
    assert_eq!(to_lower(""), "");
    let text = "Hello, World \u{130} 123";
    assert_eq!(to_lower(text), text.to_ascii_lowercase());
}

#[test]
fn every_register_has_its_name_and_its_number() {
    let names = [
        "zero", "at", "v0", "v1", "a0", "a1", "a2", "a3", "t0", "t1", "t2", "t3", "t4", "t5",
        "t6", "t7", "s0", "s1", "s2", "s3", "s4", "s5", "s6", "s7", "t8", "t9", "k0", "k1", "gp",
        "sp", "fp", "ra",
    ];
    for n in 0..32u32 {
        let r = Register::from_number(n).unwrap();
        assert_eq!(r.to_u32(), n);
        assert_eq!(r.to_lower_str(), names[n as usize]);
        let named = Register::from_str(names[n as usize]).unwrap();
        assert_eq!(named.to_u32(), n);
        assert_eq!(named, r);
    }
}

#[test]
fn a_register_out_of_range_is_a_compile_error() {
    assert_eq!(
        Register::from_number(32),
        Err(MipsyError::Compile(CompileError::NumberedRegisterOutOfRange { number: 32 }))
    );
    assert_eq!(
        Register::from_number(u32::MAX),
        Err(MipsyError::Compile(CompileError::NumberedRegisterOutOfRange { number: u32::MAX }))
    );
    assert_eq!(
        Register::from_str("T0"),
        Err(MipsyError::Compile(CompileError::NamedRegisterUnknown { name: String::from("T0") }))
    );
    assert_eq!(
        Register::from_str("pc"),
        Err(MipsyError::Compile(CompileError::NamedRegisterUnknown { name: String::from("pc") }))
    );
    assert_eq!(
        Register::from_str(""),
        Err(MipsyError::Compile(CompileError::NamedRegisterUnknown { name: String::new() }))
    );
}
