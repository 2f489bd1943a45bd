use mipsy_interactive::host::{
    sys13_open, sys14_read, sys14_read_result, sys15_write, sys15_write_result, sys16_close,
    CloseArgs, HostCall, HostIo, HostStep, OpenArgs, ReadArgs, WriteArgs,
};
use mipsy_interactive::output::{body1, body2, body3, body4, span, span_owned, Channel, Output, Span, Tone};
use mipsy_interactive::syscall::{
    print_string_output, sys10_exit, sys11_print_char, sys17_exit_status, sys1_print_int,
    sys2_print_float, sys3_print_double, sys4_print_string, sys9_sbrk, trap,
};

fn sp(tone: Tone, text: &str) -> Span {
    Span { tone, text: String::from(text) }
}

fn raw(text: &str) -> Output {
    Output { channel: Channel::Raw, body: vec![sp(Tone::Plain, text)], newlines: 0 }
}

fn trace(code: u32, label: &str, value: &str, tone: Tone) -> Output {
    Output {
        channel: Channel::Syscall(code),
        body: vec![sp(Tone::Plain, label), sp(tone, value)],
        newlines: 1,
    }
}

fn quoted(code: u32, label: &str, value: &str, quote: &str) -> Output {
    Output {
        channel: Channel::Syscall(code),
        body: vec![sp(Tone::Plain, label), sp(Tone::Green, value), sp(Tone::Plain, quote)],
        newlines: 1,
    }
}

fn line(code: u32, text: &str) -> Output {
    Output { channel: Channel::Syscall(code), body: vec![sp(Tone::Plain, text)], newlines: 1 }
}

#[test]
fn print_int_prints_the_decimal_numeral() {
    assert_eq!(sys1_print_int(false, 42), raw("42"));
    assert_eq!(sys1_print_int(false, -7), raw("-7"));
    assert_eq!(sys1_print_int(false, i32::MIN), raw("-2147483648"));
    assert_eq!(sys1_print_int(true, 42), trace(1, "print_int: ", "42", Tone::Green));
    assert_eq!(sys1_print_int(true, 0), trace(1, "print_int: ", "0", Tone::Green));
    assert_eq!(sys1_print_int(true, 42).text(), "print_int: 42");
}

#[test]
fn print_float_and_double_show_the_text_they_are_given() {
    let single = format!("{}", 1.5f32);
    let double = format!("{}", -0.25f64);
    assert_eq!(sys2_print_float(false, &single), raw("1.5"));
    assert_eq!(sys2_print_float(true, &single), trace(2, "print_float: ", "1.5", Tone::Green));
    assert_eq!(sys3_print_double(false, &double), raw("-0.25"));
    assert_eq!(sys3_print_double(true, &double), trace(3, "print_double: ", "-0.25", Tone::Green));
}

#[test]
fn print_string_decodes_bytes_permissively() {
    assert_eq!(sys4_print_string(false, b"hello\n"), raw("hello\n"));
    assert_eq!(sys4_print_string(false, b""), raw(""));
    assert_eq!(sys4_print_string(false, &[b'a', 0xff, b'b']), raw("a\u{fffd}b"));
    assert_eq!(sys4_print_string(false, &[0xc3, 0xa9]), raw("\u{e9}"));
    assert_eq!(
        sys4_print_string(true, b"hi \"you\"\n\t"),
        quoted(4, "print_string: \"", "hi \\\"you\\\"\\n\\t", "\"")
    );
    assert_eq!(
        sys4_print_string(true, &[b'a', 0xff, 0xc3, 0xa9, 0]),
        quoted(4, "print_string: \"", "a\\u{fffd}\\u{e9}\\u{0}", "\"")
    );
    assert_eq!(sys4_print_string(true, b"ok").text(), "print_string: \"ok\"");
}

#[test]
fn print_string_output_works_on_decoded_text() {
    assert_eq!(print_string_output(false, "a\u{20ac}"), raw("a\u{20ac}"));
    assert_eq!(
        print_string_output(true, "a\u{20ac}'"),
        quoted(4, "print_string: \"", "a\\u{20ac}\\'", "\"")
    );
    let text = "mixed \u{1F600} \\ end";
    assert_eq!(
        print_string_output(true, text),
        quoted(4, "print_string: \"", &text.escape_default().to_string(), "\"")
    );
}

#[test]
fn print_char_prints_one_character() {
    assert_eq!(sys11_print_char(false, b'A'), raw("A"));
    assert_eq!(sys11_print_char(false, b'\n'), raw("\n"));
    assert_eq!(sys11_print_char(false, 0xe9), raw("\u{e9}"));
    assert_eq!(sys11_print_char(false, 0), raw("\0"));
    assert_eq!(sys11_print_char(true, b'A'), quoted(11, "print_char: '", "A", "'"));
    assert_eq!(sys11_print_char(true, b'\n'), quoted(11, "print_char: '", "\\n", "'"));
    assert_eq!(sys11_print_char(true, b'\''), quoted(11, "print_char: '", "\\'", "'"));
    assert_eq!(sys11_print_char(true, 0xe9), quoted(11, "print_char: '", "\\u{e9}", "'"));
    assert_eq!(sys11_print_char(true, 0), quoted(11, "print_char: '", "\\u{0}", "'"));
    for b in 0..=255u8 {
        let escaped = (b as char).escape_default().to_string();
        assert_eq!(sys11_print_char(true, b), quoted(11, "print_char: '", &escaped, "'"));
        assert_eq!(sys11_print_char(false, b), raw(&(b as char).to_string()));
    }
}

#[test]
fn trace_only_calls_show_nothing_unless_verbose() {
    assert_eq!(sys9_sbrk(false, 16), None);
    assert_eq!(sys9_sbrk(true, 16), Some(trace(9, "sbrk: ", "16", Tone::Green)));
    assert_eq!(sys9_sbrk(true, -16), Some(trace(9, "sbrk: ", "-16", Tone::Green)));
    assert_eq!(sys10_exit(false), None);
    assert_eq!(sys10_exit(true), Some(line(10, "exit")));
    assert_eq!(sys17_exit_status(false, 0), None);
    assert_eq!(sys17_exit_status(false, 3), None);
}

#[test]
fn exit_status_tells_zero_from_the_rest() {
    assert_eq!(sys17_exit_status(true, 0), Some(trace(17, "exit_status: ", "0", Tone::Green)));
    assert_eq!(sys17_exit_status(true, 1), Some(trace(17, "exit_status: ", "1", Tone::Red)));
    assert_eq!(sys17_exit_status(true, -1), Some(trace(17, "exit_status: ", "-1", Tone::Red)));
    assert_eq!(
        sys17_exit_status(true, i32::MAX),
        Some(trace(17, "exit_status: ", "2147483647", Tone::Red))
    );
}

#[test]
fn a_trap_is_shown_in_either_mode() {
    let expected = Output {
        channel: Channel::Raw,
        body: vec![sp(Tone::BrightRedBold, "[TRAP]")],
        newlines: 2,
    };
    assert_eq!(trap(false), expected);
    assert_eq!(trap(true), expected);
}

#[test]
fn host_calls_are_declined_without_the_capability() {
    let open = OpenArgs { path: b"/tmp/x".to_vec(), flags: 0, mode: 0o644 };
    for verbose in [false, true] {
        assert_eq!(sys13_open(HostIo::Unsupported, verbose, open.clone()), None);
        assert_eq!(sys14_read(HostIo::Unsupported, verbose, ReadArgs { fd: 3, len: 10 }), None);
        assert_eq!(
            sys15_write(HostIo::Unsupported, verbose, WriteArgs { fd: 1, buf: vec![1, 2] }),
            None
        );
        assert_eq!(sys16_close(HostIo::Unsupported, verbose, CloseArgs { fd: 3 }), None);
    }
}

#[test]
fn open_forwards_its_arguments_as_they_are() {
    let args = OpenArgs { path: b"dir/a \"b\"\n.txt".to_vec(), flags: 0x241, mode: 0o644 };
    let call = HostCall::Open { path: b"dir/a \"b\"\n.txt".to_vec(), flags: 0x241, mode: 0o644 };
    assert_eq!(
        sys13_open(HostIo::Enabled, false, args.clone()),
        Some(HostStep { trace: None, call: call.clone() })
    );
    assert_eq!(
        sys13_open(HostIo::Enabled, true, args),
        Some(HostStep {
            trace: Some(line(13, "open(\"dir/a \\\"b\\\"\\n.txt\", 577, 420)")),
            call
        })
    );
    let high = OpenArgs { path: Vec::new(), flags: 0xFFFF_FFFF, mode: u32::MAX };
    assert_eq!(
        sys13_open(HostIo::Enabled, true, high),
        Some(HostStep {
            trace: Some(line(13, "open(\"\", 4294967295, 4294967295)")),
            call: HostCall::Open { path: Vec::new(), flags: -1, mode: u32::MAX }
        })
    );
}

#[test]
fn read_asks_for_a_buffer_of_the_given_size() {
    assert_eq!(
        sys14_read(HostIo::Enabled, false, ReadArgs { fd: 3, len: 128 }),
        Some(HostStep { trace: None, call: HostCall::Read { fd: 3, len: 128 } })
    );
    assert_eq!(
        sys14_read(HostIo::Enabled, true, ReadArgs { fd: 0x8000_0000, len: 0 }),
        Some(HostStep {
            trace: Some(line(14, "read(2147483648, 0)")),
            call: HostCall::Read { fd: i32::MIN, len: 0 }
        })
    );
    assert_eq!(sys14_read_result(5, vec![1, 2, 3, 4, 5, 0, 0]), (5, vec![1, 2, 3, 4, 5, 0, 0]));
    assert_eq!(sys14_read_result(-1, vec![0, 0]), (-1, vec![0, 0]));
    assert_eq!(sys14_read_result(isize::MAX, Vec::new()), (isize::MAX as i32, Vec::new()));
}

#[test]
fn write_shows_its_bytes_as_a_list() {
    assert_eq!(
        sys15_write(HostIo::Enabled, false, WriteArgs { fd: 1, buf: vec![104, 105] }),
        Some(HostStep { trace: None, call: HostCall::Write { fd: 1, buf: vec![104, 105] } })
    );
    assert_eq!(
        sys15_write(HostIo::Enabled, true, WriteArgs { fd: 1, buf: vec![104, 105, 0, 255] }),
        Some(HostStep {
            trace: Some(line(15, "write(1, [104, 105, 0, 255])")),
            call: HostCall::Write { fd: 1, buf: vec![104, 105, 0, 255] }
        })
    );
    assert_eq!(
        sys15_write(HostIo::Enabled, true, WriteArgs { fd: 2, buf: vec![7] }),
        Some(HostStep {
            trace: Some(line(15, "write(2, [7])")),
            call: HostCall::Write { fd: 2, buf: vec![7] }
        })
    );
    let buf: Vec<u8> = Vec::new();
    assert_eq!(
        sys15_write(HostIo::Enabled, true, WriteArgs { fd: 2, buf: buf.clone() }),
        Some(HostStep {
            trace: Some(line(15, &format!("write({}, {:?})", 2, buf))),
            call: HostCall::Write { fd: 2, buf }
        })
    );
    assert_eq!(sys15_write_result(2), 2);
    assert_eq!(sys15_write_result(-1), -1);
    assert_eq!(sys15_write_result(0x1_0000_0005), 5);
}

#[test]
fn close_forwards_the_descriptor() {
    assert_eq!(
        sys16_close(HostIo::Enabled, false, CloseArgs { fd: 4 }),
        Some(HostStep { trace: None, call: HostCall::Close { fd: 4 } })
    );
    assert_eq!(
        sys16_close(HostIo::Enabled, true, CloseArgs { fd: u32::MAX }),
        Some(HostStep {
            trace: Some(line(16, "close(4294967295)")),
            call: HostCall::Close { fd: -1 }
        })
    );
}

#[test]
fn bodies_keep_their_spans_in_order() {
    let a = span(Tone::Green, "a");
    let b = span_owned(Tone::Red, String::from("b"));
    let c = span(Tone::Bold, "c");
    let d = span(Tone::Plain, "d");
    assert_eq!(body1(a.clone()), vec![a.clone()]);
    assert_eq!(body2(a.clone(), b.clone()), vec![a.clone(), b.clone()]);
    assert_eq!(body3(a.clone(), b.clone(), c.clone()), vec![a.clone(), b.clone(), c.clone()]);
    let out = Output::new(Channel::Tip, body4(a.clone(), b.clone(), c.clone(), d.clone()), 2);
    assert_eq!(out.body, vec![a, b, c, d]);
    assert_eq!(out.channel, Channel::Tip);
    assert_eq!(out.newlines, 2);
    assert_eq!(out.text(), "abcd");
    assert_eq!(Output::new(Channel::Raw, Vec::new(), 0).text(), "");
}
