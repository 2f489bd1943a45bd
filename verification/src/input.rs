//! Answering a read request from the terminal. The terminal itself is not
//! here: whoever owns it reads one line or one token, hands the outcome in,
//! and is told whether the read is done or what to show before reading again.

use vstd::prelude::*;
use vstd::string::*;
use crate::output::{
    body1, output_of, outputs1, outputs_view, span_of, span_owned, Channel, Output, OutputView,
    Tone,
};
use crate::text::{decimal, push_decimal};

verus! {

/// What is read next: one token between white space, or one whole line.
#[derive(Clone, Copy, Debug, PartialEq, Eq, Structural)]
pub enum Source {
    Token,
    Line,
}

/// Why a read gave no value.
#[derive(Clone, Debug, PartialEq, Eq)]
pub enum ReadFailure {
    /// What was read is no value of the type asked for; `leftover` is the
    /// text that was read. It is empty when the stream had ended.
    Parse { leftover: String },
    /// What was read is not text.
    Other,
}

/// Whether the failure is that of a stream that has ended: nothing was left
/// to read.
pub open spec fn is_end_of_input(failure: ReadFailure) -> bool {
    failure matches ReadFailure::Parse { leftover } && leftover@.len() == 0
}

/// What to do after one read.
#[derive(Debug, PartialEq, Eq)]
pub enum ReadStep<T> {
    /// The read is over, with this result.
    Done(T),
    /// Show these, then read again.
    Retry(Vec<Output>),
}

/// The text that asks again after input that is no `name`.
pub open spec fn bad_input_text(name: Seq<char>) -> Seq<char> {
    "bad input (expected "@ + name + "), try again: "@
}

/// The prompt after input that is no `name`: an error notice in verbose
/// mode, a line of the emulator's own otherwise. Neither ends the line.
pub open spec fn bad_input_prompt(name: Seq<char>, verbose: bool) -> OutputView {
    if verbose {
        output_of(Channel::Error, seq![span_of(Tone::Plain, bad_input_text(name))], 0)
    } else {
        output_of(Channel::Raw, seq![span_of(Tone::Plain, "[mipsy] "@ + bad_input_text(name))], 0)
    }
}

/// The notice that a number does not fit in 32 bits.
pub open spec fn too_big_prompt(verbose: bool) -> OutputView {
    if verbose {
        output_of(
            Channel::Error,
            seq![span_of(Tone::Plain, "bad input (too big to fit in 32 bits)"@)],
            1,
        )
    } else {
        output_of(
            Channel::Raw,
            seq![span_of(Tone::Plain, "[mipsy] bad input (too big to fit in 32 bits)"@)],
            1,
        )
    }
}

/// What is shown after a number that does not fit in 32 bits: the notice,
/// the number's low 32 bits as a suggestion, and the request to try again.
pub open spec fn too_big_prompts(n: i128, verbose: bool) -> Seq<OutputView> {
    seq![
        too_big_prompt(verbose),
        output_of(
            Channel::Raw,
            seq![
                span_of(
                    Tone::Plain,
                    "[mipsy] if you want the value to be truncated to 32 bits, try "@ + decimal(
                        (n as i32) as int,
                    ),
                ),
            ],
            1,
        ),
        output_of(Channel::Raw, seq![span_of(Tone::Plain, "[mipsy] try again: "@)], 0),
    ]
}

/// Whether a wide number fits in 32 bits.
pub open spec fn fits_i32(n: i128) -> bool {
    i32::MIN <= n <= i32::MAX
}

/// How a read that may meet the end of the stream goes on after one outcome:
/// a value ends it with that value, the end of the stream ends it with none,
/// anything else asks again.
pub open spec fn eof_verdict<T>(outcome: Result<T, ReadFailure>) -> Option<Option<T>> {
    match outcome {
        Ok(value) => Some(Some(value)),
        Err(failure) => if is_end_of_input(failure) {
            Some(None)
        } else {
            None
        },
    }
}

/// How a read of a 32-bit number goes on after one outcome: a number that
/// fits ends it with that number, the end of the stream ends it with none,
/// anything else asks again.
pub open spec fn int_verdict(outcome: Result<i128, ReadFailure>) -> Option<Option<i32>> {
    match outcome {
        Ok(n) => if fits_i32(n) {
            Some(Some(n as i32))
        } else {
            None
        },
        Err(failure) => if is_end_of_input(failure) {
            Some(None)
        } else {
            None
        },
    }
}

/// What is shown before a 32-bit number is asked for again.
pub open spec fn int_prompts(outcome: Result<i128, ReadFailure>, name: Seq<char>, verbose: bool)
    -> Seq<OutputView> {
    match outcome {
        Ok(n) => too_big_prompts(n, verbose),
        Err(_) => seq![bad_input_prompt(name, verbose)],
    }
}

fn plain_output(channel: Channel, text: String, newlines: u8) -> (out: Output)
    ensures
        out@ == output_of(channel, seq![span_of(Tone::Plain, text@)], newlines),
{
    Output::new(channel, body1(span_owned(Tone::Plain, text)), newlines)
}

/// The prompt after input that is no `name`.
pub fn bad_input(name: &str, verbose: bool) -> (out: Output)
    ensures
        out@ == bad_input_prompt(name@, verbose),
{
    let mut text = String::new();
    if !verbose {
        text.append("[mipsy] ");
    }
    text.append("bad input (expected ");
    text.append(name);
    text.append("), try again: ");
    if verbose {
        assert(text@ =~= bad_input_text(name@));
        plain_output(Channel::Error, text, 0)
    } else {
        assert(text@ =~= "[mipsy] "@ + bad_input_text(name@));
        plain_output(Channel::Raw, text, 0)
    }
}

fn too_big(n: i128, verbose: bool) -> (outputs: Vec<Output>)
    ensures
        outputs_view(outputs@) == too_big_prompts(n, verbose),
{
    let first = if verbose {
        plain_output(Channel::Error, "bad input (too big to fit in 32 bits)".to_owned(), 1)
    } else {
        plain_output(Channel::Raw, "[mipsy] bad input (too big to fit in 32 bits)".to_owned(), 1)
    };
    let truncated: i32 = #[verifier::truncate]
    (n as i32);
    let mut text = String::new();
    text.append("[mipsy] if you want the value to be truncated to 32 bits, try ");
    push_decimal(&mut text, truncated as i64);
    let second = plain_output(Channel::Raw, text, 1);
    let third = plain_output(Channel::Raw, "[mipsy] try again: ".to_owned(), 0);
    let mut outputs: Vec<Output> = Vec::new();
    outputs.push(first);
    outputs.push(second);
    outputs.push(third);
    assert(outputs_view(outputs@) =~= too_big_prompts(n, verbose));
    outputs
}

fn at_end(failure: &ReadFailure) -> (end: bool)
    ensures
        end == is_end_of_input(*failure),
{
    match failure {
        ReadFailure::Parse { leftover } => leftover.as_str().unicode_len() == 0,
        ReadFailure::Other => false,
    }
}

/// One round of reading a value of the type called `name`: a value ends the
/// read; after anything else the prompt is shown and the read goes on.
/// The mode decides how the prompt is worded and nothing else.
pub fn get_input<T>(outcome: Result<T, ReadFailure>, name: &str, verbose: bool) -> (step: ReadStep<
    T,
>)
    ensures
        match step {
            ReadStep::Done(value) => outcome == Ok::<T, ReadFailure>(value),
            ReadStep::Retry(prompts) => outcome is Err && outputs_view(prompts@) == seq![
                bad_input_prompt(name@, verbose),
            ],
        },
{
    match outcome {
        Ok(value) => ReadStep::Done(value),
        Err(_) => ReadStep::Retry(outputs1(bad_input(name, verbose))),
    }
}

/// One round of reading a value where the stream may end: a value ends the
/// read with that value; the end of the stream ends it with no value; after
/// anything else the prompt is shown and the read goes on.
/// The mode decides how the prompt is worded and nothing else.
pub fn get_input_eof<T>(outcome: Result<T, ReadFailure>, name: &str, verbose: bool) -> (step:
    ReadStep<Option<T>>)
    ensures
        match step {
            ReadStep::Done(value) => eof_verdict(outcome) == Some(value),
            ReadStep::Retry(prompts) => eof_verdict(outcome) is None && outputs_view(prompts@)
                == seq![bad_input_prompt(name@, verbose)],
        },
{
    match outcome {
        Ok(value) => ReadStep::Done(Some(value)),
        Err(failure) => {
            if at_end(&failure) {
                ReadStep::Done(None)
            } else {
                ReadStep::Retry(outputs1(bad_input(name, verbose)))
            }
        },
    }
}

/// One round of reading a 32-bit number that was read as a wide one: a
/// number that fits ends the read; the end of the stream ends it with no
/// value; a number that does not fit is answered with its low 32 bits as a
/// suggestion, which is not taken by itself, and the read goes on; so it
/// does after anything else. The mode decides how the prompts are worded and
/// nothing else.
pub fn get_input_int(outcome: Result<i128, ReadFailure>, name: &str, verbose: bool) -> (step:
    ReadStep<Option<i32>>)
    ensures
        match step {
            ReadStep::Done(value) => int_verdict(outcome) == Some(value),
            ReadStep::Retry(prompts) => int_verdict(outcome) is None && outputs_view(prompts@)
                == int_prompts(outcome, name@, verbose),
        },
{
    match outcome {
        Ok(n) => {
            if -2147483648 <= n && n <= 2147483647 {
                ReadStep::Done(Some(n as i32))
            } else {
                ReadStep::Retry(too_big(n, verbose))
            }
        },
        Err(failure) => {
            if at_end(&failure) {
                ReadStep::Done(None)
            } else {
                ReadStep::Retry(outputs1(bad_input(name, verbose)))
            }
        },
    }
}

} // verus!
