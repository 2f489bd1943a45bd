//! Printing one 32-bit cell in the representation that was asked for, and
//! printing the string that starts at an address.

use vstd::prelude::*;
use vstd::string::*;
use crate::error::{MipsyError, MipsyErrorView, RuntimeError, RuntimeErrorView};
use crate::state::{RuntimeState, StateView};
use crate::text::{
    ascii_escape, ascii_escape_all, decimal, hex_fixed, lemma_hex_fixed_len, push_ascii_escape,
    push_char, push_decimal, push_hex_fixed, str_eq,
};

verus! {

/// The representations a value can be printed in.
#[derive(Clone, Copy, Debug, PartialEq, Eq, Structural)]
pub enum PrintType {
    Byte,
    Half,
    Word,
    XByte,
    XHalf,
    XWord,
    Char,
    Str,
}

/// The representation that `name` asks for: each has a long name and a short
/// one, and the 8-digit hexadecimal form has two of either.
pub open spec fn print_type_named(name: Seq<char>) -> Option<PrintType> {
    if name == "byte"@ || name == "b"@ {
        Some(PrintType::Byte)
    } else if name == "half"@ || name == "h"@ {
        Some(PrintType::Half)
    } else if name == "word"@ || name == "w"@ {
        Some(PrintType::Word)
    } else if name == "xbyte"@ || name == "xb"@ {
        Some(PrintType::XByte)
    } else if name == "xhalf"@ || name == "xh"@ {
        Some(PrintType::XHalf)
    } else if name == "xword"@ || name == "xw"@ || name == "hex"@ || name == "x"@ {
        Some(PrintType::XWord)
    } else if name == "char"@ || name == "c"@ {
        Some(PrintType::Char)
    } else if name == "string"@ || name == "s"@ {
        Some(PrintType::Str)
    } else {
        None
    }
}

/// The cell that holds `value`: its 32 bits read as an unsigned number.
pub open spec fn cell(value: i32) -> u32 {
    value as u32
}

/// The low byte of a cell.
pub open spec fn low_byte(value: i32) -> u8 {
    (cell(value) & 0xFF) as u8
}

/// The low half of a cell.
pub open spec fn low_half(value: i32) -> u16 {
    (cell(value) & 0xFFFF) as u16
}

/// One cell in one representation, numerals without a prefix:
/// `Word` is the signed decimal numeral of the value;
/// `Byte` and `Half` are the unsigned decimal numerals of the low byte and
/// of the low half; `XByte`, `XHalf` and `XWord` are 2, 4 and 8 hexadecimal
/// digits of the low byte, the low half and the whole cell; `Char` is the low
/// byte as a character, escaped and in single quotes. A cell has no `Str`
/// representation.
pub open spec fn formatted(value: i32, kind: PrintType) -> Seq<char>
    recommends
        kind != PrintType::Str,
{
    match kind {
        PrintType::Byte => decimal(low_byte(value) as int),
        PrintType::Half => decimal(low_half(value) as int),
        PrintType::Word => decimal(value as int),
        PrintType::XByte => hex_fixed(low_byte(value) as nat, 2),
        PrintType::XHalf => hex_fixed(low_half(value) as nat, 4),
        PrintType::XWord => hex_fixed(cell(value) as nat, 8),
        PrintType::Char => seq!['\''] + ascii_escape(low_byte(value)) + seq!['\''],
        PrintType::Str => Seq::empty(),
    }
}

/// Whether the representation is one of the hexadecimal ones.
pub open spec fn is_hex(kind: PrintType) -> bool {
    kind == PrintType::XByte || kind == PrintType::XHalf || kind == PrintType::XWord
}

/// Reads the name of a representation.
pub fn parse_print_type(name: &str) -> (kind: Option<PrintType>)
    ensures
        kind == print_type_named(name@),
{
    if str_eq(name, "byte") || str_eq(name, "b") {
        Some(PrintType::Byte)
    } else if str_eq(name, "half") || str_eq(name, "h") {
        Some(PrintType::Half)
    } else if str_eq(name, "word") || str_eq(name, "w") {
        Some(PrintType::Word)
    } else if str_eq(name, "xbyte") || str_eq(name, "xb") {
        Some(PrintType::XByte)
    } else if str_eq(name, "xhalf") || str_eq(name, "xh") {
        Some(PrintType::XHalf)
    } else if str_eq(name, "xword") || str_eq(name, "xw") || str_eq(name, "hex") || str_eq(
        name,
        "x",
    ) {
        Some(PrintType::XWord)
    } else if str_eq(name, "char") || str_eq(name, "c") {
        Some(PrintType::Char)
    } else if str_eq(name, "string") || str_eq(name, "s") {
        Some(PrintType::Str)
    } else {
        None
    }
}

fn cell_of(value: i32) -> (c: u32)
    ensures
        c == cell(value),
{
    #[verifier::truncate]
    (value as u32)
}

fn low_byte_of(value: i32) -> (b: u8)
    ensures
        b == low_byte(value),
{
    let c: u32 = cell_of(value);
    let masked: u32 = c & 0xFF;
    assert(c & 0xFF < 256) by (bit_vector);
    masked as u8
}

fn low_half_of(value: i32) -> (h: u16)
    ensures
        h == low_half(value),
{
    let c: u32 = cell_of(value);
    let masked: u32 = c & 0xFFFF;
    assert(c & 0xFFFF < 65536) by (bit_vector);
    masked as u16
}

fn push_formatted(out: &mut String, value: i32, kind: PrintType)
    requires
        kind != PrintType::Str,
    ensures
        final(out)@ == old(out)@ + formatted(value, kind),
{
    match kind {
        PrintType::Byte => push_decimal(out, low_byte_of(value) as i64),
        PrintType::Half => push_decimal(out, low_half_of(value) as i64),
        PrintType::Word => push_decimal(out, value as i64),
        PrintType::XByte => push_hex_fixed(out, low_byte_of(value) as u32, 2),
        PrintType::XHalf => push_hex_fixed(out, low_half_of(value) as u32, 4),
        PrintType::XWord => push_hex_fixed(out, cell_of(value), 8),
        PrintType::Char => {
            push_char(out, '\'');
            push_ascii_escape(out, low_byte_of(value));
            push_char(out, '\'');
            assert(out@ =~= old(out)@ + formatted(value, kind));
        },
        PrintType::Str => {},
    }
}

/// Formats one cell in the representation `kind`: the numerals are digits
/// and nothing else.
pub fn format_simple_print(value: i32, kind: PrintType) -> (text: String)
    requires
        kind != PrintType::Str,
    ensures
        text@ == formatted(value, kind),
{
    let mut text = String::new();
    push_formatted(&mut text, value, kind);
    text
}

/// The bytes from `addr` up to the first zero byte, if every byte on the way
/// can be read: `Ok` with those bytes. `Err` with the bytes before the first
/// unreadable one, where that comes first or memory ends.
pub open spec fn string_at(state: StateView, addr: int) -> Result<Seq<u8>, Seq<u8>>
    decreases 0x1_0000_0000 - addr,
{
    if addr < 0 || addr > u32::MAX {
        Err(Seq::empty())
    } else {
        match state.byte(addr) {
            None => Err(Seq::empty()),
            Some(b) => if b == 0 {
                Ok(Seq::empty())
            } else {
                match string_at(state, addr + 1) {
                    Ok(rest) => Ok(seq![b] + rest),
                    Err(rest) => Err(seq![b] + rest),
                }
            },
        }
    }
}

/// What printing the string at `addr` gives: the escaped text in double
/// quotes, or the error that carries the escaped text found so far.
pub open spec fn string_print(state: StateView, addr: int) -> Result<Seq<char>, MipsyErrorView> {
    match string_at(state, addr) {
        Ok(bytes) => Ok(seq!['"'] + ascii_escape_all(bytes) + seq!['"']),
        Err(bytes) => Err(
            MipsyErrorView::Runtime(
                RuntimeErrorView::UnterminatedString { good_parts: ascii_escape_all(bytes) },
            ),
        ),
    }
}

proof fn lemma_escape_all_push(bytes: Seq<u8>, b: u8)
    ensures
        ascii_escape_all(bytes.push(b)) == ascii_escape_all(bytes) + ascii_escape(b),
{
    assert(bytes.push(b).drop_last() =~= bytes);
}

/// Formats the string that starts at `addr`: byte after byte up to the first
/// zero byte, each escaped, in double quotes. Where a byte cannot be read
/// before a zero byte is found, the text so far comes back in the error.
pub fn format_string(state: &RuntimeState, addr: u32) -> (r: Result<String, MipsyError>)
    ensures
        match r {
            Ok(text) => string_print(state@, addr as int) == Ok::<Seq<char>, MipsyErrorView>(
                text@,
            ),
            Err(e) => string_print(state@, addr as int) == Err::<Seq<char>, MipsyErrorView>(e@),
        },
{
    let mut text = String::new();
    let mut at: u32 = addr;
    let ghost mut seen: Seq<u8> = Seq::empty();
    loop
        invariant
            addr <= at,
            text@ == ascii_escape_all(seen),
            forall|rest: Seq<u8>|
                string_at(state@, at as int) == Ok::<Seq<u8>, Seq<u8>>(rest) ==> string_at(
                    state@,
                    addr as int,
                ) == Ok::<Seq<u8>, Seq<u8>>(seen + rest),
            forall|rest: Seq<u8>|
                string_at(state@, at as int) == Err::<Seq<u8>, Seq<u8>>(rest) ==> string_at(
                    state@,
                    addr as int,
                ) == Err::<Seq<u8>, Seq<u8>>(seen + rest),
        decreases u32::MAX - at,
    {
        let b: u8 = match state.get_byte(at) {
            Ok(b) => b,
            Err(_) => {
                proof {
                    assert(string_at(state@, at as int) == Err::<Seq<u8>, Seq<u8>>(Seq::empty()));
                    assert(seen + Seq::<u8>::empty() =~= seen);
                }
                return Err(
                    MipsyError::Runtime(RuntimeError::UnterminatedString { good_parts: text }),
                );
            },
        };
        if b == 0 {
            proof {
                assert(string_at(state@, at as int) == Ok::<Seq<u8>, Seq<u8>>(Seq::empty()));
                assert(seen + Seq::<u8>::empty() =~= seen);
            }
            let mut quoted = String::new();
            push_char(&mut quoted, '"');
            quoted.append(text.as_str());
            push_char(&mut quoted, '"');
            assert(quoted@ =~= seq!['"'] + ascii_escape_all(seen) + seq!['"']);
            return Ok(quoted);
        }
        push_ascii_escape(&mut text, b);
        let ghost before = seen;
        proof {
            lemma_escape_all_push(seen, b);
            assert forall|rest: Seq<u8>| (seen.push(b)) + rest =~= seen + (seq![b] + rest) by {}
            if at < u32::MAX {
                assert forall|rest: Seq<u8>|
                    string_at(state@, at + 1) == Ok::<Seq<u8>, Seq<u8>>(
                        rest,
                    ) implies string_at(state@, addr as int) == Ok::<Seq<u8>, Seq<u8>>(
                    seen.push(b) + rest,
                ) by {
                    assert(string_at(state@, at as int) == Ok::<Seq<u8>, Seq<u8>>(seq![b] + rest));
                    assert((seen.push(b)) + rest =~= seen + (seq![b] + rest));
                }
                assert forall|rest: Seq<u8>|
                    string_at(state@, at + 1) == Err::<Seq<u8>, Seq<u8>>(
                        rest,
                    ) implies string_at(state@, addr as int) == Err::<Seq<u8>, Seq<u8>>(
                    seen.push(b) + rest,
                ) by {
                    assert(string_at(state@, at as int) == Err::<Seq<u8>, Seq<u8>>(seq![b] + rest));
                    assert((seen.push(b)) + rest =~= seen + (seq![b] + rest));
                }
            }
            seen = seen.push(b);
        }
        if at == u32::MAX {
            proof {
                assert(string_at(state@, at + 1) == Err::<Seq<u8>, Seq<u8>>(Seq::empty()));
                assert(string_at(state@, at as int) == Err::<Seq<u8>, Seq<u8>>(
                    seq![b] + Seq::<u8>::empty(),
                ));
                assert(seen =~= before + (seq![b] + Seq::<u8>::empty()));
            }
            return Err(MipsyError::Runtime(RuntimeError::UnterminatedString { good_parts: text }));
        }
        at += 1;
    }
}

/// The numeric forms of every 32-bit value: the hexadecimal forms are 2
/// digits of the cell masked to its low byte, 4 digits of the cell masked to
/// its low half, and 8 digits of the whole cell read as unsigned; the word
/// form is the signed decimal numeral of the value as it is; the byte and
/// half forms are the decimal numerals of the masked cell.
pub proof fn lemma_numeric_forms(v: i32)
    ensures
        formatted(v, PrintType::XByte) == hex_fixed((cell(v) & 0xFF) as nat, 2),
        formatted(v, PrintType::XByte).len() == 2,
        formatted(v, PrintType::XHalf) == hex_fixed((cell(v) & 0xFFFF) as nat, 4),
        formatted(v, PrintType::XHalf).len() == 4,
        formatted(v, PrintType::XWord) == hex_fixed(cell(v) as nat, 8),
        formatted(v, PrintType::XWord).len() == 8,
        formatted(v, PrintType::Word) == decimal(v as int),
        formatted(v, PrintType::Byte) == decimal((cell(v) & 0xFF) as int),
        formatted(v, PrintType::Half) == decimal((cell(v) & 0xFFFF) as int),
        cell(v) == if v < 0 {
            v + 0x1_0000_0000
        } else {
            v as int
        },
{
    let c = cell(v);
    assert(c & 0xFF < 256) by (bit_vector);
    assert(c & 0xFFFF < 65536) by (bit_vector);
    assert(v < 0 ==> (v as u32) == v + 0x1_0000_0000) by (bit_vector);
    assert(v >= 0 ==> (v as u32) == v) by (bit_vector);
    lemma_hex_fixed_len(low_byte(v) as nat, 2);
    lemma_hex_fixed_len(low_half(v) as nat, 4);
    lemma_hex_fixed_len(c as nat, 8);
}

} // verus!
