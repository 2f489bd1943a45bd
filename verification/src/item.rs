//! The grammar of what the print command can be asked to print: a register
//! by name or by number, or an address as a decimal numeral, as a hexadecimal
//! numeral, or as a label.

use vstd::prelude::*;
use vstd::string::*;
use crate::text::push_char;

verus! {

/// An item that can be printed.
#[derive(Clone, Debug, PartialEq, Eq)]
pub enum Item {
    NamedRegister(String),
    NumberedRegister(u8),
    Address(u32),
    Label(String),
}

/// An item as contracts see it.
pub enum ItemView {
    NamedRegister(Seq<char>),
    NumberedRegister(u8),
    Address(u32),
    Label(Seq<char>),
}

impl View for Item {
    type V = ItemView;

    open spec fn view(&self) -> ItemView {
        match self {
            Item::NamedRegister(name) => ItemView::NamedRegister(name@),
            Item::NumberedRegister(number) => ItemView::NumberedRegister(*number),
            Item::Address(addr) => ItemView::Address(*addr),
            Item::Label(name) => ItemView::Label(name@),
        }
    }
}

/// The value of `c` as a digit: 0 to 15 for a decimal digit or a letter from
/// `a` to `f` in either case, and 16 for any other character.
pub open spec fn digit_value(c: char) -> int {
    if '0' <= c <= '9' {
        c as int - 48
    } else if 'a' <= c <= 'f' {
        c as int - 87
    } else if 'A' <= c <= 'F' {
        c as int - 55
    } else {
        16
    }
}

/// Whether `s` is a numeral in this base: one digit or more, nothing else.
pub open spec fn is_numeral(s: Seq<char>, base: int) -> bool {
    s.len() > 0 && forall|i: int| 0 <= i < s.len() ==> digit_value(#[trigger] s[i]) < base
}

/// The number that the digits of `s` stand for in this base.
pub open spec fn numeral_value(s: Seq<char>, base: int) -> int
    decreases s.len(),
{
    if s.len() == 0 {
        0
    } else {
        numeral_value(s.drop_last(), base) * base + digit_value(s.last())
    }
}

/// Whether a name may begin with `c`: a letter or the underscore.
pub open spec fn is_name_start(c: char) -> bool {
    ('a' <= c <= 'z') || ('A' <= c <= 'Z') || c == '_'
}

/// Whether a name may go on with `c`: a letter, a digit, the underscore or
/// the dot.
pub open spec fn is_name_char(c: char) -> bool {
    is_name_start(c) || ('0' <= c <= '9') || c == '.'
}

/// Whether `s` is a name.
pub open spec fn is_name(s: Seq<char>) -> bool {
    s.len() > 0 && is_name_start(s[0]) && forall|i: int|
        0 <= i < s.len() ==> is_name_char(#[trigger] s[i])
}

/// Whether `s` is a hexadecimal numeral with its prefix, `0x` or `0X`.
pub open spec fn is_hex_literal(s: Seq<char>) -> bool {
    s.len() > 2 && s[0] == '0' && (s[1] == 'x' || s[1] == 'X') && is_numeral(s.skip(2), 16)
}

/// The address that the 32 bits of `-magnitude` stand for.
pub open spec fn negated(magnitude: int) -> u32 {
    if magnitude == 0 {
        0
    } else {
        (0x1_0000_0000 - magnitude) as u32
    }
}

/// The item that `s` names, if it names one:
/// `$` and a decimal numeral up to 255 is a register by number, `$` and a
/// name is a register by name; a hexadecimal numeral with its prefix or a
/// decimal numeral, up to the greatest address, is an address; so is a
/// decimal numeral behind a minus sign, down to the least 32-bit number,
/// which stands for the address with the same 32 bits; a name is a label.
pub open spec fn item_of(s: Seq<char>) -> Option<ItemView> {
    if s.len() > 0 && s[0] == '-' {
        let digits = s.skip(1);
        if is_numeral(digits, 10) && numeral_value(digits, 10) <= 0x8000_0000 {
            Some(ItemView::Address(negated(numeral_value(digits, 10))))
        } else {
            None
        }
    } else if s.len() > 0 && s[0] == '$' {
        let name = s.skip(1);
        if is_numeral(name, 10) {
            if numeral_value(name, 10) <= u8::MAX {
                Some(ItemView::NumberedRegister(numeral_value(name, 10) as u8))
            } else {
                None
            }
        } else if is_name(name) {
            Some(ItemView::NamedRegister(name))
        } else {
            None
        }
    } else if is_hex_literal(s) {
        if numeral_value(s.skip(2), 16) <= u32::MAX {
            Some(ItemView::Address(numeral_value(s.skip(2), 16) as u32))
        } else {
            None
        }
    } else if is_numeral(s, 10) {
        if numeral_value(s, 10) <= u32::MAX {
            Some(ItemView::Address(numeral_value(s, 10) as u32))
        } else {
            None
        }
    } else if is_name(s) {
        Some(ItemView::Label(s))
    } else {
        None
    }
}

/// The lower-case form of an ASCII capital; any other character itself.
pub open spec fn lower_char(c: char) -> char {
    if 'A' <= c <= 'Z' {
        (c as int + 32) as char
    } else {
        c
    }
}

/// `s` with every ASCII capital in lower case.
pub open spec fn lower(s: Seq<char>) -> Seq<char> {
    s.map_values(|c: char| lower_char(c))
}

/// A numeral is worth at least as much as what any of its beginnings is
/// worth.
pub proof fn lemma_numeral_grows(s: Seq<char>, base: int, k: int)
    requires
        base >= 1,
        0 <= k <= s.len(),
    ensures
        0 <= numeral_value(s.take(k), base) <= numeral_value(s, base),
    decreases s.len(),
{
    if k == s.len() {
        assert(s.take(k) =~= s);
        if s.len() > 0 {
            lemma_numeral_grows(s.drop_last(), base, k - 1);
            assert(s.drop_last().take(k - 1) =~= s.drop_last());
            assert(numeral_value(s.drop_last(), base) * base >= 0) by (nonlinear_arith)
                requires
                    numeral_value(s.drop_last(), base) >= 0,
                    base >= 1,
            ;
        }
    } else {
        lemma_numeral_grows(s.drop_last(), base, k);
        assert(s.drop_last().take(k) =~= s.take(k));
        assert(numeral_value(s.drop_last(), base) * base >= numeral_value(s.drop_last(), base))
            by (nonlinear_arith)
            requires
                numeral_value(s.drop_last(), base) >= 0,
                base >= 1,
        ;
    }
}

/// The characters of `text`, one by one.
fn chars_of(text: &str) -> (chars: Vec<char>)
    ensures
        chars@ == text@,
{
    let n: usize = text.unicode_len();
    let mut chars: Vec<char> = Vec::new();
    let mut i: usize = 0;
    while i < n
        invariant
            i <= n,
            n == text@.len(),
            chars@ == text@.take(i as int),
        decreases n - i,
    {
        chars.push(text.get_char(i));
        i += 1;
        assert(chars@ =~= text@.take(i as int));
    }
    assert(text@.take(n as int) =~= text@);
    chars
}

/// The string made of the characters from index `from` on.
fn text_from(chars: &Vec<char>, from: usize) -> (text: String)
    requires
        from <= chars.len(),
    ensures
        text@ == chars@.skip(from as int),
{
    let mut text = String::new();
    let mut i: usize = from;
    while i < chars.len()
        invariant
            from <= i <= chars.len(),
            text@ == chars@.subrange(from as int, i as int),
        decreases chars.len() - i,
    {
        push_char(&mut text, chars[i]);
        i += 1;
        assert(text@ =~= chars@.subrange(from as int, i as int));
    }
    assert(chars@.subrange(from as int, chars.len() as int) =~= chars@.skip(from as int));
    text
}

/// `text` with every ASCII capital in lower case.
pub fn to_lower(text: &str) -> (lowered: String)
    ensures
        lowered@ == lower(text@),
{
    let n: usize = text.unicode_len();
    let mut lowered = String::new();
    let mut i: usize = 0;
    while i < n
        invariant
            i <= n,
            n == text@.len(),
            lowered@ == lower(text@).take(i as int),
        decreases n - i,
    {
        let c: char = text.get_char(i);
        let code: u32 = c as u32;
        if 65 <= code && code <= 90 {
            push_char(&mut lowered, ((code + 32) as u8) as char);
        } else {
            push_char(&mut lowered, c);
        }
        i += 1;
        assert(lowered@ =~= lower(text@).take(i as int));
    }
    assert(lower(text@).take(n as int) =~= lower(text@));
    lowered
}

fn digit_of(c: char) -> (d: u64)
    ensures
        d == digit_value(c),
{
    let code: u32 = c as u32;
    if 48 <= code && code <= 57 {
        (code - 48) as u64
    } else if 97 <= code && code <= 102 {
        (code - 87) as u64
    } else if 65 <= code && code <= 70 {
        (code - 55) as u64
    } else {
        16
    }
}

fn name_start(c: char) -> (b: bool)
    ensures
        b == is_name_start(c),
{
    let code: u32 = c as u32;
    (97 <= code && code <= 122) || (65 <= code && code <= 90) || code == 95
}

fn name_char(c: char) -> (b: bool)
    ensures
        b == is_name_char(c),
{
    let code: u32 = c as u32;
    name_start(c) || (48 <= code && code <= 57) || code == 46
}

/// Whether the characters from `from` on are a name.
fn name_from(chars: &Vec<char>, from: usize) -> (b: bool)
    requires
        from <= chars.len(),
    ensures
        b == is_name(chars@.skip(from as int)),
{
    let ghost s = chars@.skip(from as int);
    if from >= chars.len() {
        return false;
    }
    assert(s[0] == chars@[from as int]);
    if !name_start(chars[from]) {
        return false;
    }
    let mut i: usize = from;
    while i < chars.len()
        invariant
            from <= i <= chars.len(),
            s == chars@.skip(from as int),
            forall|k: int| 0 <= k < i - from ==> is_name_char(#[trigger] s[k]),
        decreases chars.len() - i,
    {
        assert(s[i - from] == chars@[i as int]);
        if !name_char(chars[i]) {
            return false;
        }
        i += 1;
    }
    true
}

/// The number that the characters from `from` on stand for as a numeral in
/// this base, where they are one and the number is at most `max`.
fn numeral_from(chars: &Vec<char>, from: usize, base: u64, max: u64) -> (r: Option<u64>)
    requires
        from <= chars.len(),
        base == 10 || base == 16,
        max <= u32::MAX,
    ensures
        match r {
            Some(value) => is_numeral(chars@.skip(from as int), base as int) && value
                == numeral_value(chars@.skip(from as int), base as int) && value <= max,
            None => !is_numeral(chars@.skip(from as int), base as int) || numeral_value(
                chars@.skip(from as int),
                base as int,
            ) > max,
        },
{
    let ghost s = chars@.skip(from as int);
    if from >= chars.len() {
        return None;
    }
    let mut acc: u64 = 0;
    let mut i: usize = from;
    assert(s.take(0) =~= Seq::<char>::empty());
    while i < chars.len()
        invariant
            from <= i <= chars.len(),
            from < chars.len(),
            s == chars@.skip(from as int),
            base == 10 || base == 16,
            max <= u32::MAX,
            acc <= max,
            acc == numeral_value(s.take(i - from), base as int),
            forall|k: int| 0 <= k < i - from ==> digit_value(#[trigger] s[k]) < base,
        decreases chars.len() - i,
    {
        let d: u64 = digit_of(chars[i]);
        assert(s[i - from] == chars@[i as int]);
        if d >= base {
            return None;
        }
        assert(acc * base <= 0xFFFF_FFFF * 16) by (nonlinear_arith)
            requires
                acc <= 0xFFFF_FFFF,
                base <= 16,
        ;
        let next: u64 = acc * base + d;
        proof {
            let longer = s.take(i - from + 1);
            assert(longer.drop_last() =~= s.take(i - from));
            assert(longer.last() == s[i - from]);
            assert(numeral_value(longer, base as int) == next);
            if next > max {
                lemma_numeral_grows(s, base as int, i - from + 1);
            }
        }
        if next > max {
            return None;
        }
        acc = next;
        i += 1;
    }
    assert(s.take(i - from) =~= s);
    Some(acc)
}

/// Whether the characters from `from` on are a numeral in this base.
fn is_numeral_from(chars: &Vec<char>, from: usize, base: u64) -> (b: bool)
    requires
        from <= chars.len(),
    ensures
        b == is_numeral(chars@.skip(from as int), base as int),
{
    let ghost s = chars@.skip(from as int);
    if from >= chars.len() {
        return false;
    }
    let mut i: usize = from;
    while i < chars.len()
        invariant
            from <= i <= chars.len(),
            s == chars@.skip(from as int),
            forall|k: int| 0 <= k < i - from ==> digit_value(#[trigger] s[k]) < base,
        decreases chars.len() - i,
    {
        assert(s[i - from] == chars@[i as int]);
        if digit_of(chars[i]) >= base {
            return false;
        }
        i += 1;
    }
    true
}

/// Reads an item.
pub fn parse_item(text: &str) -> (item: Option<Item>)
    ensures
        match item {
            Some(found) => item_of(text@) == Some(found@),
            None => item_of(text@) is None,
        },
{
    let chars = chars_of(text);
    let n: usize = chars.len();
    assert(chars@.skip(0) =~= chars@);
    if n > 0 && chars[0] == '-' {
        match numeral_from(&chars, 1, 10, 0x8000_0000) {
            Some(magnitude) => {
                if magnitude == 0 {
                    Some(Item::Address(0))
                } else {
                    Some(Item::Address((0x1_0000_0000u64 - magnitude) as u32))
                }
            },
            None => None,
        }
    } else if n > 0 && chars[0] == '$' {
        if is_numeral_from(&chars, 1, 10) {
            match numeral_from(&chars, 1, 10, 255) {
                Some(number) => Some(Item::NumberedRegister(number as u8)),
                None => None,
            }
        } else if name_from(&chars, 1) {
            Some(Item::NamedRegister(text_from(&chars, 1)))
        } else {
            None
        }
    } else if n > 2 && chars[0] == '0' && (chars[1] == 'x' || chars[1] == 'X')
        && is_numeral_from(&chars, 2, 16) {
        match numeral_from(&chars, 2, 16, 0xFFFF_FFFF) {
            Some(addr) => Some(Item::Address(addr as u32)),
            None => None,
        }
    } else if is_numeral_from(&chars, 0, 10) {
        match numeral_from(&chars, 0, 10, 0xFFFF_FFFF) {
            Some(addr) => Some(Item::Address(addr as u32)),
            None => None,
        }
    } else if name_from(&chars, 0) {
        Some(Item::Label(text_from(&chars, 0)))
    } else {
        None
    }
}

} // verus!
