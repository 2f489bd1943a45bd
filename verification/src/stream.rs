//! Reading from a stream that is held in memory: the same rounds as at the
//! terminal, run to their end over bytes that are all there already.

use vstd::prelude::*;
use vstd::slice::slice_subrange;
use vstd::string::*;
use vstd::utf8::{
    decode_utf8, encode_utf8, encode_utf8_decode_utf8, encode_utf8_valid_utf8, is_ascii_chars,
    is_ascii_chars_encode_utf8, valid_utf8,
};
use crate::item::{is_numeral, numeral_value};
use crate::input::{
    bad_input_prompt, fits_i32, get_input_eof, get_input_int, int_prompts, int_verdict,
    too_big_prompts, ReadFailure, ReadStep,
};
use crate::output::{outputs_view, Output, OutputView};

verus! {

/// Whether a byte is white space to a scan: tab, line feed, carriage return
/// or space.
pub open spec fn is_blank(b: u8) -> bool {
    b == 9 || b == 10 || b == 13 || b == 32
}

/// How many bytes at the front of `input` are white space, for `blank`, or
/// are none, for `!blank`.
pub open spec fn run_len(input: Seq<u8>, blank: bool) -> nat
    decreases input.len(),
{
    if input.len() > 0 && is_blank(input[0]) == blank {
        1 + run_len(input.skip(1), blank)
    } else {
        0
    }
}

/// The bytes of the first token of `input`: what stands between the white
/// space at the front and the next white space.
pub open spec fn token_bytes(input: Seq<u8>) -> Seq<u8> {
    let after = input.skip(run_len(input, true) as int);
    after.take(run_len(after, false) as int)
}

/// How many bytes a scan uses up: the white space at the front, the token,
/// and the one byte of white space behind it where there is one.
pub open spec fn used_by_scan(input: Seq<u8>) -> int {
    let skipped = run_len(input, true);
    let taken = run_len(input.skip(skipped as int), false);
    if skipped + taken < input.len() {
        (skipped + taken + 1) as int
    } else {
        (skipped + taken) as int
    }
}

/// The token that a scan finds at the front of `input`, where its bytes are
/// UTF-8. At the end of the stream it is the token with nothing in it.
pub open spec fn scanned(input: Seq<u8>) -> Option<Seq<char>> {
    if valid_utf8(token_bytes(input)) {
        Some(decode_utf8(token_bytes(input)))
    } else {
        None
    }
}

/// The number that a token stands for as an `i128`: an optional sign, then
/// decimal digits and nothing else, with a value that an `i128` holds.
pub open spec fn wide_of(token: Seq<char>) -> Option<i128> {
    let signed = token.len() > 0 && (token[0] == '+' || token[0] == '-');
    let digits = if signed {
        token.skip(1)
    } else {
        token
    };
    let value = if token.len() > 0 && token[0] == '-' {
        -numeral_value(digits, 10)
    } else {
        numeral_value(digits, 10)
    };
    if is_numeral(digits, 10) && i128::MIN <= value <= i128::MAX {
        Some(value as i128)
    } else {
        None
    }
}

/// Whether `r` is the outcome of a scan that found `token`: the token as a
/// string where there is one, the failure that is not about parsing
/// otherwise.
pub open spec fn scan_outcome(r: Result<String, ReadFailure>, token: Option<Seq<char>>) -> bool {
    match r {
        Ok(text) => token == Some(text@),
        Err(failure) => token is None && failure == ReadFailure::Other,
    }
}

/// Takes one token from the front of `input` with `text_io::parse_capture`,
/// asked for a `String` and given no stop byte. It skips white space, takes
/// the bytes up to the next white space, and takes that one off the stream
/// too; the bytes it took are the token where they are UTF-8, and a failure
/// otherwise. It returns the outcome and the number of bytes it leaves.
#[verifier::external_body]
fn scan_token(input: &[u8]) -> (r: (Result<String, ReadFailure>, usize))
    ensures
        scan_outcome(r.0, scanned(input@)),
        r.1 == input@.len() - used_by_scan(input@),
{
    let mut rest = input.iter().copied();
    let outcome = text_io::parse_capture::<String>("token", None, &mut rest);
    match outcome {
        Ok(text) => (Ok(text), rest.len()),
        Err(_) => (Err(ReadFailure::Other), rest.len()),
    }
}

/// Reads a token as an `i128` with `str::parse`, which takes an optional
/// sign followed by decimal digits and nothing else, and fails where the
/// number is out of range.
#[verifier::external_body]
fn parse_wide(token: &str) -> (r: Option<i128>)
    ensures
        r == wide_of(token@),
{
    token.parse::<i128>().ok()
}

proof fn lemma_run_len(input: Seq<u8>, blank: bool)
    ensures
        run_len(input, blank) <= input.len(),
    decreases input.len(),
{
    if input.len() > 0 && is_blank(input[0]) == blank {
        lemma_run_len(input.skip(1), blank);
    }
}

/// A scan uses no more bytes than there are, and at least one wherever the
/// token it finds has bytes; a token without bytes is the token with
/// nothing in it.
pub proof fn lemma_scan_uses_bytes(input: Seq<u8>)
    ensures
        0 <= used_by_scan(input) <= input.len(),
        token_bytes(input).len() > 0 ==> used_by_scan(input) >= 1,
        token_bytes(input).len() == 0 ==> scanned(input) == Some(Seq::<char>::empty()),
{
    let skipped = run_len(input, true);
    lemma_run_len(input, true);
    let after = input.skip(skipped as int);
    lemma_run_len(after, false);
    if token_bytes(input).len() == 0 {
        assert(valid_utf8(token_bytes(input)));
        assert(decode_utf8(token_bytes(input)) =~= Seq::<char>::empty());
    }
}

/// A token of ASCII bytes is the text of the same characters, byte by byte.
pub proof fn lemma_ascii_token(input: Seq<u8>)
    requires
        forall|i: int| 0 <= i < token_bytes(input).len() ==> token_bytes(input)[i] < 128,
    ensures
        scanned(input) == Some(
            Seq::new(token_bytes(input).len(), |i: int| token_bytes(input)[i] as char),
        ),
{
    let bytes = token_bytes(input);
    let chars = Seq::new(bytes.len(), |i: int| bytes[i] as char);
    assert(is_ascii_chars(chars));
    is_ascii_chars_encode_utf8(chars);
    assert(encode_utf8(chars) =~= bytes);
    encode_utf8_valid_utf8(chars);
    encode_utf8_decode_utf8(chars);
}

/// What reading a 32-bit number makes of one token: at the end of the
/// stream, where the token has nothing in it, the read ends with no value; a
/// numeral that fits in 32 bits ends it with its value; anything else asks
/// again.
pub open spec fn wide_verdict(token: Option<Seq<char>>) -> Option<Option<i32>> {
    match token {
        None => None,
        Some(text) => if text.len() == 0 {
            Some(None)
        } else {
            match wide_of(text) {
                Some(n) => if fits_i32(n) {
                    Some(Some(n as i32))
                } else {
                    None
                },
                None => None,
            }
        },
    }
}

/// What is shown before a 32-bit number is asked for again.
pub open spec fn wide_prompts(token: Option<Seq<char>>, verbose: bool) -> Seq<OutputView> {
    match token {
        Some(text) => match wide_of(text) {
            Some(n) => too_big_prompts(n, verbose),
            None => seq![bad_input_prompt("int"@, verbose)],
        },
        None => seq![bad_input_prompt("int"@, verbose)],
    }
}

/// What reading a 32-bit number from a stream gives: the value or none, what
/// was shown on the way, and how many bytes were used.
pub open spec fn int_read(input: Seq<u8>, verbose: bool) -> (Option<i32>, Seq<OutputView>, int)
    decreases input.len(),
{
    let token = scanned(input);
    let used = used_by_scan(input);
    match wide_verdict(token) {
        Some(value) => (value, Seq::empty(), used),
        None => if 1 <= used <= input.len() {
            let rest = int_read(input.skip(used), verbose);
            (rest.0, wide_prompts(token, verbose) + rest.1, used + rest.2)
        } else {
            (None, Seq::empty(), used)
        },
    }
}

/// What reading a token makes of one scan: at the end of the stream the
/// read ends with no value; a token ends it with that token; bytes that are
/// no text ask again.
pub open spec fn token_verdict(token: Option<Seq<char>>) -> Option<Option<Seq<char>>> {
    match token {
        None => None,
        Some(text) => if text.len() == 0 {
            Some(None)
        } else {
            Some(Some(text))
        },
    }
}

/// What reading a token from a stream gives: the token or none, what was
/// shown on the way, and how many bytes were used.
pub open spec fn token_read(input: Seq<u8>, name: Seq<char>, verbose: bool) -> (
    Option<Seq<char>>,
    Seq<OutputView>,
    int,
)
    decreases input.len(),
{
    let token = scanned(input);
    let used = used_by_scan(input);
    match token_verdict(token) {
        Some(value) => (value, Seq::empty(), used),
        None => if 1 <= used <= input.len() {
            let rest = token_read(input.skip(used), name, verbose);
            (rest.0, seq![bad_input_prompt(name, verbose)] + rest.1, used + rest.2)
        } else {
            (None, Seq::empty(), used)
        },
    }
}

/// The result of a read from a stream in memory.
#[derive(Debug, PartialEq, Eq)]
pub struct Read<T> {
    /// What was read, if the stream did not end first.
    pub value: Option<T>,
    /// What was shown on the way, in order.
    pub shown: Vec<Output>,
    /// How many bytes of the stream were used.
    pub used: usize,
}

/// The outcome of reading a wide number from a scan: a token with nothing
/// in it is the failure of a stream that has ended; a numeral is its number;
/// any other token is left over; a failed scan stays the failure it is.
pub fn wide_outcome(scan: Result<String, ReadFailure>) -> (outcome: Result<i128, ReadFailure>)
    ensures
        outcome == match scan {
            Ok(text) => if text@.len() > 0 && wide_of(text@) is Some {
                Ok::<i128, ReadFailure>(wide_of(text@)->0)
            } else {
                Err::<i128, ReadFailure>(ReadFailure::Parse { leftover: text })
            },
            Err(failure) => Err::<i128, ReadFailure>(failure),
        },
{
    match scan {
        Ok(text) => {
            if text.as_str().unicode_len() == 0 {
                Err(ReadFailure::Parse { leftover: text })
            } else {
                match parse_wide(text.as_str()) {
                    Some(n) => Ok(n),
                    None => Err(ReadFailure::Parse { leftover: text }),
                }
            }
        },
        Err(failure) => Err(failure),
    }
}

fn append(shown: &mut Vec<Output>, more: Vec<Output>)
    ensures
        outputs_view(final(shown)@) == outputs_view(old(shown)@) + outputs_view(more@),
{
    let ghost all = more@;
    let mut more = more;
    shown.append(&mut more);
    assert(outputs_view(shown@) =~= outputs_view(old(shown)@) + outputs_view(all));
}

/// Reads a 32-bit number from the front of `input`: token after token, until
/// one is a numeral that fits in 32 bits, or the stream ends. A numeral that
/// does not fit is answered with its low 32 bits as a suggestion and is not
/// taken.
pub fn read_int_or_eof(input: &[u8], verbose: bool) -> (read: Read<i32>)
    ensures
        read.value == int_read(input@, verbose).0,
        outputs_view(read.shown@) == int_read(input@, verbose).1,
        read.used == int_read(input@, verbose).2,
        read.used <= input@.len(),
{
    let mut shown: Vec<Output> = Vec::new();
    let mut pos: usize = 0;
    assert(input@.skip(0) =~= input@);
    assert(outputs_view(shown@) =~= Seq::<OutputView>::empty());
    loop
        invariant
            pos <= input@.len(),
            int_read(input@, verbose).0 == int_read(input@.skip(pos as int), verbose).0,
            int_read(input@, verbose).1 == outputs_view(shown@) + int_read(
                input@.skip(pos as int),
                verbose,
            ).1,
            int_read(input@, verbose).2 == pos + int_read(input@.skip(pos as int), verbose).2,
        decreases input@.len() - pos,
    {
        let rest = slice_subrange(input, pos, input.len());
        assert(rest@ =~= input@.skip(pos as int));
        let (scan, left) = scan_token(rest);
        let used: usize = rest.len() - left;
        let ghost token = scanned(rest@);
        proof {
            lemma_scan_uses_bytes(rest@);
        }
        let outcome = wide_outcome(scan);
        assert(int_verdict(outcome) == wide_verdict(token));
        match get_input_int(outcome, "int", verbose) {
            ReadStep::Done(value) => {
                assert(outputs_view(shown@) + Seq::<OutputView>::empty() =~= outputs_view(shown@));
                return Read { value, shown, used: pos + used };
            },
            ReadStep::Retry(prompts) => {
                assert(int_prompts(outcome, "int"@, verbose) == wide_prompts(token, verbose));
                assert(used >= 1);
                proof {
                    let after = int_read(rest@.skip(used as int), verbose);
                    assert(used == used_by_scan(rest@));
                    assert(rest@.skip(used as int) =~= input@.skip(pos + used));
                    assert(outputs_view(shown@) + (wide_prompts(token, verbose) + after.1) =~= (
                    outputs_view(shown@) + wide_prompts(token, verbose)) + after.1);
                }
                append(&mut shown, prompts);
                pos = pos + used;
            },
        }
    }
}

/// Reads one token from the front of `input`, asking again where the bytes
/// that were taken are no text, until there is a token or the stream ends.
pub fn read_token_or_eof(input: &[u8], name: &str, verbose: bool) -> (read: Read<String>)
    ensures
        match read.value {
            Some(text) => token_read(input@, name@, verbose).0 == Some(text@),
            None => token_read(input@, name@, verbose).0 is None,
        },
        outputs_view(read.shown@) == token_read(input@, name@, verbose).1,
        read.used == token_read(input@, name@, verbose).2,
        read.used <= input@.len(),
{
    let mut shown: Vec<Output> = Vec::new();
    let mut pos: usize = 0;
    assert(input@.skip(0) =~= input@);
    assert(outputs_view(shown@) =~= Seq::<OutputView>::empty());
    loop
        invariant
            pos <= input@.len(),
            token_read(input@, name@, verbose).0 == token_read(
                input@.skip(pos as int),
                name@,
                verbose,
            ).0,
            token_read(input@, name@, verbose).1 == outputs_view(shown@) + token_read(
                input@.skip(pos as int),
                name@,
                verbose,
            ).1,
            token_read(input@, name@, verbose).2 == pos + token_read(
                input@.skip(pos as int),
                name@,
                verbose,
            ).2,
        decreases input@.len() - pos,
    {
        let rest = slice_subrange(input, pos, input.len());
        assert(rest@ =~= input@.skip(pos as int));
        let (scan, left) = scan_token(rest);
        let used: usize = rest.len() - left;
        let ghost token = scanned(rest@);
        proof {
            lemma_scan_uses_bytes(rest@);
        }
        let outcome: Result<String, ReadFailure> = match scan {
            Ok(text) => {
                if text.as_str().unicode_len() == 0 {
                    Err(ReadFailure::Parse { leftover: text })
                } else {
                    Ok(text)
                }
            },
            Err(failure) => Err(failure),
        };
        match get_input_eof(outcome, name, verbose) {
            ReadStep::Done(value) => {
                assert(outputs_view(shown@) + Seq::<OutputView>::empty() =~= outputs_view(shown@));
                return Read { value, shown, used: pos + used };
            },
            ReadStep::Retry(prompts) => {
                assert(used >= 1);
                proof {
                    let after = token_read(rest@.skip(used as int), name@, verbose);
                    assert(used == used_by_scan(rest@));
                    assert(rest@.skip(used as int) =~= input@.skip(pos + used));
                    assert(outputs_view(shown@) + (seq![bad_input_prompt(name@, verbose)] + after.1)
                        =~= (outputs_view(shown@) + seq![bad_input_prompt(name@, verbose)])
                        + after.1);
                }
                append(&mut shown, prompts);
                pos = pos + used;
            },
        }
    }
}

/// At the end of the stream a read gives no value and shows nothing.
pub proof fn lemma_end_of_stream_gives_no_value(input: Seq<u8>, name: Seq<char>, verbose: bool)
    requires
        scanned(input) == Some(Seq::<char>::empty()),
    ensures
        int_read(input, verbose).0 is None,
        int_read(input, verbose).1 == Seq::<OutputView>::empty(),
        token_read(input, name, verbose).0 is None,
        token_read(input, name, verbose).1 == Seq::<OutputView>::empty(),
{
}

/// A token that is no numeral, with more of the stream behind it, does not
/// end the read: the prompt is shown, and the result is that of the read
/// from behind the token.
pub proof fn lemma_malformed_token_is_asked_again(input: Seq<u8>, token: Seq<char>, verbose: bool)
    requires
        scanned(input) == Some(token),
        token.len() > 0,
        wide_of(token) is None,
        1 <= used_by_scan(input) <= input.len(),
    ensures
        int_read(input, verbose).0 == int_read(input.skip(used_by_scan(input)), verbose).0,
        int_read(input, verbose).1 == seq![bad_input_prompt("int"@, verbose)] + int_read(
            input.skip(used_by_scan(input)),
            verbose,
        ).1,
{
}

/// A numeral that does not fit in 32 bits is never the result: the read goes
/// on behind it, after the suggestion of its low 32 bits was shown.
pub proof fn lemma_wide_numeral_is_not_taken(input: Seq<u8>, token: Seq<char>, verbose: bool)
    requires
        scanned(input) == Some(token),
        token.len() > 0,
        wide_of(token) matches Some(n) && !fits_i32(n),
        1 <= used_by_scan(input) <= input.len(),
    ensures
        int_read(input, verbose).0 == int_read(input.skip(used_by_scan(input)), verbose).0,
        int_read(input, verbose).1 == too_big_prompts(wide_of(token)->0, verbose) + int_read(
            input.skip(used_by_scan(input)),
            verbose,
        ).1,
{
}

/// The mode changes what is shown, never what is read: the value and the
/// number of bytes used are the same in either mode.
pub proof fn lemma_mode_changes_wording_only(input: Seq<u8>, name: Seq<char>)
    ensures
        int_read(input, true).0 == int_read(input, false).0,
        int_read(input, true).2 == int_read(input, false).2,
        int_read(input, true).1.len() == int_read(input, false).1.len(),
        token_read(input, name, true).0 == token_read(input, name, false).0,
        token_read(input, name, true).2 == token_read(input, name, false).2,
        token_read(input, name, true).1.len() == token_read(input, name, false).1.len(),
    decreases input.len(),
{
    let used = used_by_scan(input);
    if 1 <= used <= input.len() {
        lemma_mode_changes_wording_only(input.skip(used), name);
    }
}

} // verus!
