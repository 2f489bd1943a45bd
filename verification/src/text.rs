//! Text building blocks: decimal and hexadecimal numerals, escaping of bytes
//! and characters for display, and padding.

use vstd::prelude::*;
use vstd::string::*;

verus! {

/// The character that stands for the digit `d` in bases up to sixteen, in
/// lower case.
pub open spec fn digit_char(d: int) -> char {
    if d < 10 {
        (48 + d) as char
    } else {
        (87 + d) as char
    }
}

/// The decimal numeral of `n`, without leading zeros.
pub open spec fn decimal_digits(n: nat) -> Seq<char>
    decreases n,
{
    if n < 10 {
        seq![digit_char(n as int)]
    } else {
        decimal_digits(n / 10).push(digit_char((n % 10) as int))
    }
}

/// The decimal numeral of `v`, with a leading minus sign when `v` is negative.
pub open spec fn decimal(v: int) -> Seq<char> {
    if v < 0 {
        seq!['-'] + decimal_digits((-v) as nat)
    } else {
        decimal_digits(v as nat)
    }
}

/// The hexadecimal numeral of `n` in lower case, without leading zeros.
pub open spec fn hex_digits(n: nat) -> Seq<char>
    decreases n,
{
    if n < 16 {
        seq![digit_char(n as int)]
    } else {
        hex_digits(n / 16).push(digit_char((n % 16) as int))
    }
}

/// The lowest `width` hexadecimal digits of `n` in lower case, most
/// significant first: the zero-padded numeral of `n` when `n < 16^width`.
pub open spec fn hex_fixed(n: nat, width: nat) -> Seq<char>
    decreases width,
{
    if width == 0 {
        Seq::empty()
    } else {
        hex_fixed(n / 16, (width - 1) as nat).push(digit_char((n % 16) as int))
    }
}

/// Appends one character to a string with `String::push`: the string
/// afterwards is the string before followed by `c`.
#[verifier::external_body]
pub(crate) fn push_char(s: &mut String, c: char)
    ensures
        final(s)@ == old(s)@.push(c),
{
    s.push(c)
}

/// Whether two string slices hold the same characters.
pub fn str_eq(a: &str, b: &str) -> (same: bool)
    ensures
        same == (a@ == b@),
{
    let n: usize = a.unicode_len();
    if b.unicode_len() != n {
        return false;
    }
    let mut i: usize = 0;
    while i < n
        invariant
            i <= n,
            n == a@.len(),
            n == b@.len(),
            forall|k: int| 0 <= k < i ==> a@[k] == b@[k],
        decreases n - i,
    {
        if a.get_char(i) != b.get_char(i) {
            return false;
        }
        i += 1;
    }
    assert(a@ =~= b@);
    true
}

fn digit(d: u8) -> (c: char)
    requires
        d < 16,
    ensures
        c == digit_char(d as int),
{
    if d < 10 {
        (48u8 + d) as char
    } else {
        (87u8 + d) as char
    }
}

/// Appends the decimal numeral of `n` to `out`.
pub fn push_decimal_digits(out: &mut String, n: u64)
    ensures
        final(out)@ == old(out)@ + decimal_digits(n as nat),
    decreases n,
{
    if n >= 10 {
        push_decimal_digits(out, n / 10);
    }
    push_char(out, digit((n % 10) as u8));
}

/// Appends the decimal numeral of `v` to `out`, signed.
pub fn push_decimal(out: &mut String, v: i64)
    ensures
        final(out)@ == old(out)@ + decimal(v as int),
{
    if v < 0 {
        push_char(out, '-');
        let magnitude: u64 = if v == i64::MIN {
            9223372036854775808u64
        } else {
            (-v) as u64
        };
        push_decimal_digits(out, magnitude);
    } else {
        push_decimal_digits(out, v as u64);
    }
}

/// The decimal numeral of `v` as a string.
pub fn decimal_string(v: i64) -> (s: String)
    ensures
        s@ == decimal(v as int),
{
    let mut s = String::new();
    push_decimal(&mut s, v);
    s
}

/// Appends the hexadecimal numeral of `n`, without leading zeros.
pub fn push_hex_digits(out: &mut String, n: u32)
    ensures
        final(out)@ == old(out)@ + hex_digits(n as nat),
    decreases n,
{
    if n >= 16 {
        push_hex_digits(out, n / 16);
    }
    push_char(out, digit((n % 16) as u8));
}

/// Appends the lowest `width` hexadecimal digits of `n`.
pub fn push_hex_fixed(out: &mut String, n: u32, width: u8)
    ensures
        final(out)@ == old(out)@ + hex_fixed(n as nat, width as nat),
    decreases width,
{
    if width > 0 {
        push_hex_fixed(out, n / 16, width - 1);
        push_char(out, digit((n % 16) as u8));
    }
}

/// How a byte is shown: the two-character backslash form for tab, carriage
/// return, line feed, both quotes and the backslash; the byte itself when it
/// is printable ASCII; `\x` and two hexadecimal digits otherwise.
pub open spec fn ascii_escape(b: u8) -> Seq<char> {
    if b == 9 {
        seq!['\\', 't']
    } else if b == 13 {
        seq!['\\', 'r']
    } else if b == 10 {
        seq!['\\', 'n']
    } else if b == 39 {
        seq!['\\', '\'']
    } else if b == 34 {
        seq!['\\', '"']
    } else if b == 92 {
        seq!['\\', '\\']
    } else if 0x20 <= b <= 0x7e {
        seq![b as char]
    } else {
        seq!['\\', 'x'] + hex_fixed(b as nat, 2)
    }
}

/// Every byte of `bytes` shown by `ascii_escape`, in order.
pub open spec fn ascii_escape_all(bytes: Seq<u8>) -> Seq<char>
    decreases bytes.len(),
{
    if bytes.len() == 0 {
        Seq::empty()
    } else {
        ascii_escape_all(bytes.drop_last()) + ascii_escape(bytes.last())
    }
}

/// How a character is shown: as `ascii_escape` shows it when it is tab,
/// carriage return, line feed, a quote, the backslash or printable ASCII;
/// `\u{..}` around its code point in hexadecimal otherwise.
pub open spec fn char_escape(c: char) -> Seq<char> {
    if c == '\t' {
        seq!['\\', 't']
    } else if c == '\r' {
        seq!['\\', 'r']
    } else if c == '\n' {
        seq!['\\', 'n']
    } else if c == '\'' {
        seq!['\\', '\'']
    } else if c == '"' {
        seq!['\\', '"']
    } else if c == '\\' {
        seq!['\\', '\\']
    } else if 0x20 <= c as u32 <= 0x7e {
        seq![c]
    } else {
        seq!['\\', 'u', '{'] + hex_digits(c as nat) + seq!['}']
    }
}

/// Every character of `text` shown by `char_escape`, in order.
pub open spec fn char_escape_all(text: Seq<char>) -> Seq<char>
    decreases text.len(),
{
    if text.len() == 0 {
        Seq::empty()
    } else {
        char_escape_all(text.drop_last()) + char_escape(text.last())
    }
}

/// `text` followed by as many spaces as it takes to reach `width` characters.
pub open spec fn pad_right(text: Seq<char>, width: nat) -> Seq<char> {
    text + Seq::new((if text.len() < width { width - text.len() } else { 0 }) as nat, |i: int| ' ')
}

/// Appends the display form of one byte.
pub fn push_ascii_escape(out: &mut String, b: u8)
    ensures
        final(out)@ == old(out)@ + ascii_escape(b),
{
    if b == 9 {
        push_char(out, '\\');
        push_char(out, 't');
    } else if b == 13 {
        push_char(out, '\\');
        push_char(out, 'r');
    } else if b == 10 {
        push_char(out, '\\');
        push_char(out, 'n');
    } else if b == 39 {
        push_char(out, '\\');
        push_char(out, '\'');
    } else if b == 34 {
        push_char(out, '\\');
        push_char(out, '"');
    } else if b == 92 {
        push_char(out, '\\');
        push_char(out, '\\');
    } else if 0x20 <= b && b <= 0x7e {
        push_char(out, b as char);
    } else {
        push_char(out, '\\');
        push_char(out, 'x');
        push_hex_fixed(out, b as u32, 2);
    }
    assert(out@ =~= old(out)@ + ascii_escape(b));
}

/// Appends the display form of every byte of `bytes`.
pub fn push_ascii_escape_all(out: &mut String, bytes: &[u8])
    ensures
        final(out)@ == old(out)@ + ascii_escape_all(bytes@),
{
    let mut i: usize = 0;
    assert(bytes@.take(0) =~= Seq::<u8>::empty());
    while i < bytes.len()
        invariant
            i <= bytes.len(),
            out@ == old(out)@ + ascii_escape_all(bytes@.take(i as int)),
        decreases bytes.len() - i,
    {
        push_ascii_escape(out, bytes[i]);
        proof {
            let next = bytes@.take(i + 1);
            assert(next.drop_last() =~= bytes@.take(i as int));
            assert(next.last() == bytes@[i as int]);
            assert(out@ =~= old(out)@ + ascii_escape_all(next));
        }
        i += 1;
    }
    assert(bytes@.take(i as int) =~= bytes@);
}

/// Appends the display form of one character.
pub fn push_char_escape(out: &mut String, c: char)
    ensures
        final(out)@ == old(out)@ + char_escape(c),
{
    let code: u32 = c as u32;
    if c == '\t' {
        push_char(out, '\\');
        push_char(out, 't');
    } else if c == '\r' {
        push_char(out, '\\');
        push_char(out, 'r');
    } else if c == '\n' {
        push_char(out, '\\');
        push_char(out, 'n');
    } else if c == '\'' {
        push_char(out, '\\');
        push_char(out, '\'');
    } else if c == '"' {
        push_char(out, '\\');
        push_char(out, '"');
    } else if c == '\\' {
        push_char(out, '\\');
        push_char(out, '\\');
    } else if 0x20 <= code && code <= 0x7e {
        push_char(out, c);
    } else {
        push_char(out, '\\');
        push_char(out, 'u');
        push_char(out, '{');
        push_hex_digits(out, code);
        push_char(out, '}');
    }
    assert(out@ =~= old(out)@ + char_escape(c));
}

/// Appends the display form of every character of `text`.
pub fn push_char_escape_all(out: &mut String, text: &str)
    ensures
        final(out)@ == old(out)@ + char_escape_all(text@),
{
    let n: usize = text.unicode_len();
    let mut i: usize = 0;
    assert(text@.take(0) =~= Seq::<char>::empty());
    while i < n
        invariant
            i <= n,
            n == text@.len(),
            out@ == old(out)@ + char_escape_all(text@.take(i as int)),
        decreases n - i,
    {
        push_char_escape(out, text.get_char(i));
        proof {
            let next = text@.take(i + 1);
            assert(next.drop_last() =~= text@.take(i as int));
            assert(next.last() == text@[i as int]);
            assert(out@ =~= old(out)@ + char_escape_all(next));
        }
        i += 1;
    }
    assert(text@.take(i as int) =~= text@);
}

/// Appends `text`, then spaces until `width` characters have been appended.
pub fn push_padded(out: &mut String, text: &str, width: usize)
    ensures
        final(out)@ == old(out)@ + pad_right(text@, width as nat),
{
    out.append(text);
    let n: usize = text.unicode_len();
    let mut i: usize = n;
    let ghost start = out@;
    while i < width
        invariant
            n <= i,
            n < width ==> i <= width,
            n >= width ==> i == n,
            start == old(out)@ + text@,
            out@ == start + Seq::new((i - n) as nat, |k: int| ' '),
        decreases width - i,
    {
        push_char(out, ' ');
        i += 1;
        assert(out@ =~= start + Seq::new((i - n) as nat, |k: int| ' '));
    }
    proof {
        let spaces = Seq::new((i - n) as nat, |k: int| ' ');
        let fill = Seq::new(
            (if text@.len() < width { width - text@.len() } else { 0 }) as nat,
            |k: int| ' ',
        );
        assert(spaces =~= fill);
        assert(out@ =~= old(out)@ + (text@ + fill));
    }
}

/// A numeral of fixed width has exactly that many digits.
pub proof fn lemma_hex_fixed_len(n: nat, width: nat)
    ensures
        hex_fixed(n, width).len() == width,
    decreases width,
{
    if width > 0 {
        lemma_hex_fixed_len(n / 16, (width - 1) as nat);
    }
}

} // verus!
