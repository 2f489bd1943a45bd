use mipsy_interactive::error::{CompileError, ErrorKind, MipsyError, RuntimeError};
use mipsy_interactive::state::RuntimeState;

fn unreadable<T>() -> Result<T, MipsyError> {
    Err(MipsyError::Runtime(RuntimeError::Uninitialised))
}

#[test]
fn a_tip_keeps_the_kind_of_the_error() {
    let plain = RuntimeError::BadArgument {
        arg: String::from("<item>"),
        instead: String::from("?"),
    };
    assert_eq!(plain.kind(), ErrorKind::BadArgument);
    assert_eq!(plain.tip(), None);
    let tipped = plain.with_tip(String::from("try `help print`"));
    assert_eq!(tipped.kind(), ErrorKind::BadArgument);
    assert_eq!(tipped.tip(), Some(&String::from("try `help print`")));
    let twice = tipped.with_tip(String::from("or ask"));
    assert_eq!(twice.kind(), ErrorKind::BadArgument);
    assert_eq!(twice.tip(), Some(&String::from("or ask")));
    assert_eq!(
        twice,
        RuntimeError::WithTip {
            error: Box::new(RuntimeError::WithTip {
                error: Box::new(RuntimeError::BadArgument {
                    arg: String::from("<item>"),
                    instead: String::from("?"),
                }),
                tip: String::from("try `help print`"),
            }),
            tip: String::from("or ask"),
        }
    );
}

#[test]
fn every_variant_has_its_kind() {
    let s = |t: &str| String::from(t);
    assert_eq!(RuntimeError::Uninitialised.kind(), ErrorKind::Uninitialised);
    assert_eq!(
        RuntimeError::UnknownRegister { register: s("t10") }.kind(),
        ErrorKind::UnknownRegister
    );
    assert_eq!(RuntimeError::UnknownLabel { label: s("x") }.kind(), ErrorKind::UnknownLabel);
    assert_eq!(
        RuntimeError::UninitialisedPrint { addr: 4 }.kind(),
        ErrorKind::UninitialisedPrint
    );
    assert_eq!(
        RuntimeError::UnterminatedString { good_parts: s("AB") }.kind(),
        ErrorKind::UnterminatedString
    );
    assert_eq!(RuntimeError::MustLoadFile.kind(), ErrorKind::MustLoadFile);
    assert_eq!(
        RuntimeError::MustLoadFile.with_tip(s("load")).kind(),
        ErrorKind::MustLoadFile
    );
}

#[test]
fn an_error_belongs_to_one_phase() {
    let compile = MipsyError::Compile(CompileError::UnresolvedLabel { label: String::from("x") });
    let runtime = MipsyError::Runtime(RuntimeError::MustLoadFile);
    assert!(compile.is_compile());
    assert!(!compile.is_runtime());
    assert!(runtime.is_runtime());
    assert!(!runtime.is_compile());
}

#[test]
fn a_fresh_machine_has_only_its_program_counter() {
    let state = RuntimeState::new(0x0040_0000);
    assert_eq!(state.get_pc(), 0x0040_0000);
    for id in 0..40 {
        assert_eq!(state.get_reg(id), unreadable());
    }
    assert_eq!(state.get_hi(), unreadable());
    assert_eq!(state.get_lo(), unreadable());
    assert_eq!(state.get_byte(0), unreadable());
    assert_eq!(state.get_half(0x1001_0000), unreadable());
    assert_eq!(state.get_word(0x1001_0000), unreadable());
}

#[test]
fn what_was_written_can_be_read() {
    let mut state = RuntimeState::new(0);
    state.set_reg(0, 5);
    state.set_reg(31, -1);
    state.set_reg(31, -9);
    state.set_hi(i32::MIN);
    state.set_lo(i32::MAX);
    state.set_pc(12);
    assert_eq!(state.get_reg(0), Ok(5));
    assert_eq!(state.get_reg(31), Ok(-9));
    assert_eq!(state.get_reg(30), unreadable());
    assert_eq!(state.get_reg(32), unreadable());
    assert_eq!(state.get_reg(u32::MAX), unreadable());
    assert_eq!(state.get_hi(), Ok(i32::MIN));
    assert_eq!(state.get_lo(), Ok(i32::MAX));
    assert_eq!(state.get_pc(), 12);
}

#[test]
fn halves_and_words_are_read_low_byte_first() {
    let mut state = RuntimeState::new(0);
    let bytes: [u8; 4] = [0x78, 0x56, 0x34, 0x12];
    for (i, b) in bytes.iter().enumerate() {
        state.set_byte(100 + i as u32, *b);
    }
    assert_eq!(state.get_byte(100), Ok(0x78));
    assert_eq!(state.get_byte(103), Ok(0x12));
    assert_eq!(state.get_half(100), Ok(0x5678));
    assert_eq!(state.get_half(101), Ok(0x3456));
    assert_eq!(state.get_half(102), Ok(0x1234));
    assert_eq!(state.get_word(100), Ok(0x1234_5678));
    assert_eq!(state.get_word(100), Ok(u32::from_le_bytes(bytes)));
    assert_eq!(state.get_half(103), unreadable());
    assert_eq!(state.get_word(101), unreadable());
    assert_eq!(state.get_word(97), unreadable());
    state.set_byte(100, 0xff);
    assert_eq!(state.get_word(100), Ok(0x1234_56ff));
}

#[test]
fn reads_at_the_end_of_memory_do_not_wrap() {
    let mut state = RuntimeState::new(0);
    state.set_byte(u32::MAX, 1);
    state.set_byte(u32::MAX - 1, 2);
    state.set_byte(u32::MAX - 2, 3);
    state.set_byte(u32::MAX - 3, 4);
    state.set_byte(0, 9);
    state.set_byte(1, 9);
    state.set_byte(2, 9);
    assert_eq!(state.get_byte(u32::MAX), Ok(1));
    assert_eq!(state.get_half(u32::MAX), unreadable());
    assert_eq!(state.get_half(u32::MAX - 1), Ok(0x0102));
    assert_eq!(state.get_word(u32::MAX - 3), Ok(0x0102_0304));
    assert_eq!(state.get_word(u32::MAX - 2), unreadable());
    assert_eq!(state.get_word(u32::MAX), unreadable());
}
