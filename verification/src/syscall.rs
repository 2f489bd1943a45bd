//! The system calls of the emulated program, 1 to 17. Each handler says what
//! is to be shown: the program's own output, or a trace line in verbose
//! mode. Reading the terminal and calling the host are left to whoever owns
//! them; the handlers say what to ask for and what to make of the answer.

use vstd::prelude::*;
use vstd::string::*;
use crate::input::{
    bad_input_prompt, get_input, get_input_eof, get_input_int, int_prompts, int_verdict,
    is_end_of_input, ReadFailure, ReadStep, Source,
};
use crate::output::{
    body1, body2, body3, output_of, outputs_view, span, span_of, span_owned, Channel, Output,
    OutputView, Tone,
};
use crate::text::{
    char_escape, char_escape_all, decimal, decimal_string, push_char, push_char_escape,
    push_char_escape_all, push_decimal,
};

verus! {

/// The text that a run of bytes stands for when every part of it that is
/// not UTF-8 is replaced by the replacement character.
pub uninterp spec fn utf8_lossy(bytes: Seq<u8>) -> Seq<char>;

/// Decodes bytes as text with `String::from_utf8_lossy`, which never fails:
/// the result is a function of the bytes alone.
#[verifier::external_body]
fn lossy_text(bytes: &[u8]) -> (text: String)
    ensures
        text@ == utf8_lossy(bytes@),
{
    String::from_utf8_lossy(bytes).into_owned()
}

/// What a read handler asks for: what is shown first, and what is read.
#[derive(Debug, PartialEq, Eq)]
pub struct ReadPlan {
    pub prompt: Option<Output>,
    pub source: Source,
}

/// An optional output as contracts see it.
pub open spec fn shown(output: Option<Output>) -> Option<OutputView> {
    match output {
        Some(o) => Some(o@),
        None => None,
    }
}

/// A trace line of system call `code`: the label, and the value in `tone`.
pub open spec fn trace_value(code: u32, label: Seq<char>, value: Seq<char>, tone: Tone)
    -> OutputView {
    output_of(Channel::Syscall(code), seq![span_of(Tone::Plain, label), span_of(tone, value)], 1)
}

/// A trace line of system call `code` with a value in quotes.
pub open spec fn trace_quoted(code: u32, label: Seq<char>, value: Seq<char>, quote: Seq<char>)
    -> OutputView {
    output_of(
        Channel::Syscall(code),
        seq![
            span_of(Tone::Plain, label),
            span_of(Tone::Green, value),
            span_of(Tone::Plain, quote),
        ],
        1,
    )
}

/// A trace line of system call `code` that is plain text.
pub open spec fn trace_plain(code: u32, text: Seq<char>, newlines: u8) -> OutputView {
    output_of(Channel::Syscall(code), seq![span_of(Tone::Plain, text)], newlines)
}

/// The program's own output of `text`, as it is.
pub open spec fn raw(text: Seq<char>) -> OutputView {
    output_of(Channel::Raw, seq![span_of(Tone::Plain, text)], 0)
}

/// What printing a number shows: the trace line in verbose mode, the numeral
/// itself otherwise.
pub open spec fn print_shown(verbose: bool, code: u32, label: Seq<char>, value: Seq<char>)
    -> OutputView {
    if verbose {
        trace_value(code, label, value, Tone::Green)
    } else {
        raw(value)
    }
}

/// What printing text shows: in verbose mode the trace line with the text
/// escaped and in quotes, the text itself otherwise.
pub open spec fn print_string_shown(verbose: bool, text: Seq<char>) -> OutputView {
    if verbose {
        trace_quoted(4, "print_string: \""@, char_escape_all(text), "\""@)
    } else {
        raw(text)
    }
}

/// What printing a character shows: in verbose mode the trace line with the
/// character escaped and in quotes, the character itself otherwise.
pub open spec fn print_char_shown(verbose: bool, val: u8) -> OutputView {
    if verbose {
        trace_quoted(11, "print_char: '"@, char_escape(val as char), "'"@)
    } else {
        raw(seq![val as char])
    }
}

/// What a trace-only handler shows: its line in verbose mode, nothing
/// otherwise.
pub open spec fn only_verbose(verbose: bool, line: OutputView) -> Option<OutputView> {
    if verbose {
        Some(line)
    } else {
        None
    }
}

fn trace_line(code: u32, label: &str, value: String, tone: Tone) -> (out: Output)
    ensures
        out@ == trace_value(code, label@, value@, tone),
{
    Output::new(Channel::Syscall(code), body2(span(Tone::Plain, label), span_owned(tone, value)), 1)
}

fn raw_output(text: String) -> (out: Output)
    ensures
        out@ == raw(text@),
{
    Output::new(Channel::Raw, body1(span_owned(Tone::Plain, text)), 0)
}

fn plain_trace(code: u32, text: String, newlines: u8) -> (out: Output)
    ensures
        out@ == trace_plain(code, text@, newlines),
{
    Output::new(Channel::Syscall(code), body1(span_owned(Tone::Plain, text)), newlines)
}

fn print_output(verbose: bool, code: u32, label: &str, value: String) -> (out: Output)
    ensures
        out@ == print_shown(verbose, code, label@, value@),
{
    if verbose {
        trace_line(code, label, value, Tone::Green)
    } else {
        raw_output(value)
    }
}

/// System call 1: prints a 32-bit number in decimal.
pub fn sys1_print_int(verbose: bool, val: i32) -> (out: Output)
    ensures
        out@ == print_shown(verbose, 1, "print_int: "@, decimal(val as int)),
{
    print_output(verbose, 1, "print_int: ", decimal_string(val as i64))
}

/// System call 2: prints a single-precision number, handed in as the text
/// that stands for it.
pub fn sys2_print_float(verbose: bool, val: &str) -> (out: Output)
    ensures
        out@ == print_shown(verbose, 2, "print_float: "@, val@),
{
    print_output(verbose, 2, "print_float: ", val.to_owned())
}

/// System call 3: prints a double-precision number, handed in as the text
/// that stands for it.
pub fn sys3_print_double(verbose: bool, val: &str) -> (out: Output)
    ensures
        out@ == print_shown(verbose, 3, "print_double: "@, val@),
{
    print_output(verbose, 3, "print_double: ", val.to_owned())
}

/// What system call 4 shows for text that is already decoded.
pub fn print_string_output(verbose: bool, text: &str) -> (out: Output)
    ensures
        out@ == print_string_shown(verbose, text@),
{
    if verbose {
        let mut escaped = String::new();
        push_char_escape_all(&mut escaped, text);
        assert(escaped@ =~= char_escape_all(text@));
        Output::new(
            Channel::Syscall(4),
            body3(
                span(Tone::Plain, "print_string: \""),
                span_owned(Tone::Green, escaped),
                span(Tone::Plain, "\""),
            ),
            1,
        )
    } else {
        raw_output(text.to_owned())
    }
}

/// System call 4: prints bytes as text, with whatever is not UTF-8 replaced.
pub fn sys4_print_string(verbose: bool, val: &[u8]) -> (out: Output)
    ensures
        out@ == print_string_shown(verbose, utf8_lossy(val@)),
{
    let text = lossy_text(val);
    print_string_output(verbose, text.as_str())
}

/// What a read handler asks for: in verbose mode the trace prompt, which
/// does not end the line, and in either mode what is read.
pub open spec fn read_plan(verbose: bool, code: u32, label: Seq<char>, source: Source, plan: ReadPlan)
    -> bool {
    &&& shown(plan.prompt) == only_verbose(verbose, trace_plain(code, label, 0))
    &&& plan.source == source
}

fn plan(verbose: bool, code: u32, label: String, source: Source) -> (plan: ReadPlan)
    ensures
        read_plan(verbose, code, label@, source, plan),
{
    if verbose {
        ReadPlan { prompt: Some(plain_trace(code, label, 0)), source }
    } else {
        ReadPlan { prompt: None, source }
    }
}

/// System call 5, before the read: asks for one token.
pub fn sys5_read_int(verbose: bool) -> (plan: ReadPlan)
    ensures
        read_plan(verbose, 5, "read_int: "@, Source::Token, plan),
{
    plan(verbose, 5, "read_int: ".to_owned(), Source::Token)
}

/// System call 5, after one read of a wide number: a number that fits in 32
/// bits is the result; at the end of the stream the result is 0; otherwise
/// the prompts are shown and the read goes on.
pub fn sys5_read_int_step(verbose: bool, outcome: Result<i128, ReadFailure>) -> (step: ReadStep<
    i32,
>)
    ensures
        match step {
            ReadStep::Done(value) => int_verdict(outcome) == Some(Some(value)) || (int_verdict(
                outcome,
            ) == Some(None::<i32>) && value == 0),
            ReadStep::Retry(prompts) => int_verdict(outcome) is None && outputs_view(prompts@)
                == int_prompts(outcome, "int"@, verbose),
        },
{
    match get_input_int(outcome, "int", verbose) {
        ReadStep::Done(Some(value)) => ReadStep::Done(value),
        ReadStep::Done(None) => ReadStep::Done(0),
        ReadStep::Retry(prompts) => ReadStep::Retry(prompts),
    }
}

/// System call 6, before the read: asks for one token. The number itself is
/// read by `get_input_eof`, and is 0 at the end of the stream.
pub fn sys6_read_float(verbose: bool) -> (plan: ReadPlan)
    ensures
        read_plan(verbose, 6, "read_float: "@, Source::Token, plan),
{
    plan(verbose, 6, "read_float: ".to_owned(), Source::Token)
}

/// System call 7, before the read: asks for one token. The number itself is
/// read by `get_input_eof`, and is 0 at the end of the stream.
pub fn sys7_read_double(verbose: bool) -> (plan: ReadPlan)
    ensures
        read_plan(verbose, 7, "read_double: "@, Source::Token, plan),
{
    plan(verbose, 7, "read_double: ".to_owned(), Source::Token)
}

/// System call 8, before the read: asks for one whole line, in either mode.
/// The trace prompt names the size that was asked for; the size does not
/// limit what is read.
pub fn sys8_read_string(verbose: bool, max_len: u32) -> (plan: ReadPlan)
    ensures
        read_plan(
            verbose,
            8,
            "read_string [size="@ + decimal(max_len as int) + "]: "@,
            Source::Line,
            plan,
        ),
{
    let mut label = String::new();
    label.append("read_string [size=");
    push_decimal(&mut label, max_len as i64);
    label.append("]: ");
    assert(label@ =~= "read_string [size="@ + decimal(max_len as int) + "]: "@);
    plan(verbose, 8, label, Source::Line)
}

/// System call 8, after one read of a line: the line's bytes are the
/// result, whatever their number.
pub fn sys8_read_string_step(verbose: bool, outcome: Result<String, ReadFailure>) -> (step:
    ReadStep<Vec<u8>>)
    ensures
        match step {
            ReadStep::Done(bytes) => outcome matches Ok(line) && bytes@ == vstd::utf8::encode_utf8(
                line@,
            ),
            ReadStep::Retry(prompts) => outcome is Err && outputs_view(prompts@) == seq![
                bad_input_prompt("string"@, verbose),
            ],
        },
{
    match get_input(outcome, "string", verbose) {
        ReadStep::Done(line) => ReadStep::Done(line.as_str().as_bytes_vec()),
        ReadStep::Retry(prompts) => ReadStep::Retry(prompts),
    }
}

/// System call 9: shows its trace line and does nothing else.
pub fn sys9_sbrk(verbose: bool, val: i32) -> (out: Option<Output>)
    ensures
        shown(out) == only_verbose(
            verbose,
            trace_value(9, "sbrk: "@, decimal(val as int), Tone::Green),
        ),
{
    if verbose {
        Some(trace_line(9, "sbrk: ", decimal_string(val as i64), Tone::Green))
    } else {
        None
    }
}

/// System call 10: shows its trace line and does nothing else.
pub fn sys10_exit(verbose: bool) -> (out: Option<Output>)
    ensures
        shown(out) == only_verbose(verbose, trace_plain(10, "exit"@, 1)),
{
    if verbose {
        Some(plain_trace(10, "exit".to_owned(), 1))
    } else {
        None
    }
}

/// System call 11: prints one character.
pub fn sys11_print_char(verbose: bool, val: u8) -> (out: Output)
    ensures
        out@ == print_char_shown(verbose, val),
{
    let c: char = val as char;
    if verbose {
        let mut escaped = String::new();
        push_char_escape(&mut escaped, c);
        assert(escaped@ =~= char_escape(c));
        Output::new(
            Channel::Syscall(11),
            body3(
                span(Tone::Plain, "print_char: '"),
                span_owned(Tone::Green, escaped),
                span(Tone::Plain, "'"),
            ),
            1,
        )
    } else {
        let mut text = String::new();
        push_char(&mut text, c);
        assert(text@ =~= seq![c]);
        raw_output(text)
    }
}

/// System call 12, before the read: asks for one token.
pub fn sys12_read_char(verbose: bool) -> (plan: ReadPlan)
    ensures
        read_plan(verbose, 12, "read_character: "@, Source::Token, plan),
{
    plan(verbose, 12, "read_character: ".to_owned(), Source::Token)
}

/// The character that a token gives: the low 8 bits of its first character,
/// and 0 for a token with nothing in it.
pub open spec fn first_char(token: Seq<char>) -> u8 {
    if token.len() == 0 {
        0
    } else {
        token[0] as u8
    }
}

/// What system call 12 makes of one read of a token: its first character,
/// or 0 at the end of the stream; nothing yet where what was read is no
/// text.
pub open spec fn char_verdict(outcome: Result<String, ReadFailure>) -> Option<u8> {
    match outcome {
        Ok(token) => Some(first_char(token@)),
        Err(failure) => if is_end_of_input(failure) {
            Some(0)
        } else {
            None
        },
    }
}

/// System call 12, after one read of a token: the token's first character is
/// the result; at the end of the stream the result is 0; otherwise the
/// prompt is shown and the read goes on.
pub fn sys12_read_char_step(verbose: bool, outcome: Result<String, ReadFailure>) -> (step:
    ReadStep<u8>)
    ensures
        match step {
            ReadStep::Done(value) => char_verdict(outcome) == Some(value),
            ReadStep::Retry(prompts) => char_verdict(outcome) is None && outputs_view(prompts@)
                == seq![bad_input_prompt("character"@, verbose)],
        },
{
    match get_input_eof(outcome, "character", verbose) {
        ReadStep::Done(Some(token)) => {
            if token.as_str().unicode_len() == 0 {
                ReadStep::Done(0)
            } else {
                let c: char = token.as_str().get_char(0);
                ReadStep::Done(
                    #[verifier::truncate]
                    (c as u8),
                )
            }
        },
        ReadStep::Done(None) => ReadStep::Done(0),
        ReadStep::Retry(prompts) => ReadStep::Retry(prompts),
    }
}

/// System call 17: shows its trace line, with the status in green when it is
/// 0 and in red otherwise, and does nothing else.
pub fn sys17_exit_status(verbose: bool, val: i32) -> (out: Option<Output>)
    ensures
        shown(out) == only_verbose(
            verbose,
            trace_value(
                17,
                "exit_status: "@,
                decimal(val as int),
                if val == 0 {
                    Tone::Green
                } else {
                    Tone::Red
                },
            ),
        ),
{
    if verbose {
        let tone = if val == 0 {
            Tone::Green
        } else {
            Tone::Red
        };
        Some(trace_line(17, "exit_status: ", decimal_string(val as i64), tone))
    } else {
        None
    }
}

/// The notice of a trap.
pub open spec fn trap_shown() -> OutputView {
    output_of(Channel::Raw, seq![span_of(Tone::BrightRedBold, "[TRAP]"@)], 2)
}

/// A trap: shows its notice, in either mode.
pub fn trap(verbose: bool) -> (out: Output)
    ensures
        out@ == trap_shown(),
{
    Output::new(Channel::Raw, body1(span(Tone::BrightRedBold, "[TRAP]")), 2)
}

} // verus!
