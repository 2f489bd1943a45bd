//! Reporting breakpoints and watchpoints: the program counter is traced back
//! to a line of the source, also when it stands inside an instruction that
//! was expanded into several.

use std::collections::HashMap;
use vstd::prelude::*;
use vstd::string::*;
use crate::output::{
    output_of, span, span_of, span_owned, spans_view, Channel, Output, OutputView, Span, SpanView,
    Tone,
};
use crate::text::{decimal, hex_digits, push_decimal, push_hex_digits, str_eq};

verus! {

broadcast use vstd::std_specs::hash::group_hash_axioms;

/// What a watchpoint watches for.
#[derive(Clone, Copy, Debug, PartialEq, Eq, Structural)]
pub enum TargetAction {
    ReadOnly,
    WriteOnly,
    ReadWrite,
}

/// A watchpoint: what it is set on, as text, and what it watches for.
#[derive(Clone, Debug, PartialEq, Eq)]
pub struct TargetWatch {
    pub target: String,
    pub action: TargetAction,
}

/// A place in the source that a program counter was traced back to.
#[derive(Clone, Debug, PartialEq, Eq)]
pub struct Location {
    /// The file of the line.
    pub file: String,
    /// The line, counted from 1.
    pub line: u32,
    /// The program counter, where no line starts at it.
    pub offset: Option<u32>,
    /// Whether every line of the program is in one file.
    pub single_file: bool,
}

/// A location as contracts see it.
pub struct LocationView {
    pub file: Seq<char>,
    pub line: u32,
    pub offset: Option<u32>,
    pub single_file: bool,
}

impl View for Location {
    type V = LocationView;

    open spec fn view(&self) -> LocationView {
        LocationView {
            file: self.file@,
            line: self.line,
            offset: self.offset,
            single_file: self.single_file,
        }
    }
}

/// Whether `key` is the greatest address in `lines` that does not exceed
/// `pc`.
pub open spec fn is_closest(lines: Map<u32, (String, u32)>, pc: u32, key: u32) -> bool {
    &&& lines.contains_key(key)
    &&& key <= pc
    &&& forall|k: u32| lines.contains_key(k) && k <= pc ==> k <= key
}

/// Whether some line starts at or before `pc`.
pub open spec fn has_line(lines: Map<u32, (String, u32)>, pc: u32) -> bool {
    exists|k: u32| lines.contains_key(k) && k <= pc
}

/// Whether every line is in the same file.
pub open spec fn single_file(lines: Map<u32, (String, u32)>) -> bool {
    forall|a: u32, b: u32|
        lines.contains_key(a) && lines.contains_key(b) ==> (#[trigger] lines[a]).0@
            == (#[trigger] lines[b]).0@
}

/// The location of `pc` that goes by the line at `key`.
pub open spec fn location_at(lines: Map<u32, (String, u32)>, pc: u32, key: u32) -> LocationView {
    LocationView {
        file: lines[key].0@,
        line: lines[key].1,
        offset: if key == pc {
            None
        } else {
            Some(pc)
        },
        single_file: single_file(lines),
    }
}

/// The text of a location: the file, left out where there is only one, a
/// colon and the line; then, where the program counter stands inside an
/// expanded instruction, the counter in hexadecimal, in brackets.
pub open spec fn location_spans(location: LocationView) -> Seq<SpanView> {
    let place = (if location.single_file {
        Seq::<char>::empty()
    } else {
        location.file
    }) + ":"@ + decimal(location.line as int);
    match location.offset {
        None => seq![span_of(Tone::Plain, place)],
        Some(pc) => seq![
            span_of(Tone::Plain, place + " ("@),
            span_of(Tone::Yellow, "0x"@),
            span_of(Tone::Plain, hex_digits(pc as nat) + ")"@),
        ],
    }
}

/// The notice of a breakpoint: the label where one is given, the location
/// otherwise.
pub open spec fn breakpoint_shown(label: Option<Seq<char>>, location: LocationView) -> OutputView {
    output_of(
        Channel::Raw,
        seq![span_of(Tone::CyanBold, "\n[BREAKPOINT "@)] + (match label {
            Some(text) => seq![span_of(Tone::Plain, text)],
            None => location_spans(location),
        }) + seq![span_of(Tone::CyanBold, "]"@)],
        2,
    )
}

/// How a watchpoint's action reads.
pub open spec fn action_phrase(action: TargetAction) -> Seq<char> {
    match action {
        TargetAction::ReadOnly => "read from"@,
        TargetAction::WriteOnly => "written to"@,
        TargetAction::ReadWrite => "written to"@,
    }
}

/// The notice of a watchpoint: the location, what the watchpoint is set on,
/// and whether that was read from or written to.
pub open spec fn watchpoint_shown(target: Seq<char>, action: TargetAction, location: LocationView)
    -> OutputView {
    output_of(
        Channel::Raw,
        seq![span_of(Tone::CyanBold, "\n[WATCHPOINT"@), span_of(Tone::Plain, " "@)]
            + location_spans(location) + seq![
            span_of(Tone::CyanBold, "]"@),
            span_of(Tone::Plain, " - "@ + target + " was "@ + action_phrase(action)),
        ],
        2,
    )
}

/// The greatest address of a line that does not exceed `pc`.
pub closed spec fn closest(lines: Map<u32, (String, u32)>, pc: u32) -> u32 {
    choose|key: u32| is_closest(lines, pc, key)
}

/// There is one closest line, and no other, wherever a line starts at or
/// before the program counter.
pub proof fn lemma_closest(lines: Map<u32, (String, u32)>, pc: u32, key: u32)
    requires
        is_closest(lines, pc, key),
    ensures
        closest(lines, pc) == key,
{
    let chosen = closest(lines, pc);
    assert(is_closest(lines, pc, chosen));
}

fn closest_key(lines: &HashMap<u32, (String, u32)>, pc: u32) -> (found: Option<u32>)
    ensures
        match found {
            Some(key) => is_closest(lines@, pc, key),
            None => !has_line(lines@, pc),
        },
{
    let mut best: Option<u32> = None;
    for key in it: lines.keys()
        invariant
            match best {
                Some(b) => lines@.contains_key(b) && b <= pc,
                None => true,
            },
            forall|i: int|
                0 <= i < it.index() ==> (*it.seq()[i] <= pc ==> best is Some && *it.seq()[i]
                    <= best->0),
    {
        let k: u32 = *key;
        if k <= pc {
            match best {
                Some(b) => {
                    if b < k {
                        best = Some(k);
                    }
                },
                None => {
                    best = Some(k);
                },
            }
        }
    }
    best
}

fn one_file(lines: &HashMap<u32, (String, u32)>, file: &str) -> (same: bool)
    ensures
        same == forall|k: u32| lines@.contains_key(k) ==> (#[trigger] lines@[k]).0@ == file@,
{
    let mut same: bool = true;
    let ghost mut other: u32 = 0;
    for key in it: lines.keys()
        invariant
            same ==> forall|i: int|
                0 <= i < it.index() ==> (#[trigger] lines@[*it.seq()[i]]).0@ == file@,
            !same ==> lines@.contains_key(other) && lines@[other].0@ != file@,
            it.seq().unref().to_set() == lines@.dom(),
    {
        proof {
            let keys = it.seq().unref();
            assert(keys[it.index()] == *key);
            assert(keys.contains(*key));
            assert(keys.to_set().contains(*key));
        }
        match lines.get(key) {
            Some(entry) => {
                if same && !str_eq(entry.0.as_str(), file) {
                    same = false;
                    proof {
                        other = *key;
                    }
                }
            },
            None => {},
        }
    }
    same
}

fn push_spans(body: &mut Vec<Span>, more: Vec<Span>)
    ensures
        spans_view(final(body)@) == spans_view(old(body)@) + spans_view(more@),
{
    let ghost all = more@;
    let mut more = more;
    body.append(&mut more);
    assert(spans_view(body@) =~= spans_view(old(body)@) + spans_view(all));
}

/// Traces `pc` back to the source, where some line starts at or before it:
/// the line that starts at the greatest address not above `pc`. The counter
/// itself is kept where no line starts at it.
pub fn locate(line_numbers: &HashMap<u32, (String, u32)>, pc: u32) -> (found: Option<Location>)
    ensures
        match found {
            Some(location) => has_line(line_numbers@, pc) && is_closest(
                line_numbers@,
                pc,
                closest(line_numbers@, pc),
            ) && location@ == location_at(line_numbers@, pc, closest(line_numbers@, pc)),
            None => !has_line(line_numbers@, pc),
        },
{
    let key: u32 = match closest_key(line_numbers, pc) {
        Some(key) => key,
        None => { return None; },
    };
    proof {
        lemma_closest(line_numbers@, pc, key);
    }
    match line_numbers.get(&key) {
        Some(entry) => {
            let file: String = entry.0.clone();
            let same: bool = one_file(line_numbers, file.as_str());
            proof {
                let lines = line_numbers@;
                if same {
                    assert(single_file(lines));
                } else {
                    let other = choose|k: u32|
                        lines.contains_key(k) && (#[trigger] lines[k]).0@ != file@;
                    assert(lines[other].0@ != lines[key].0@);
                    assert(!single_file(lines));
                }
            }
            Some(
                Location {
                    file,
                    line: entry.1,
                    offset: if key == pc {
                        None
                    } else {
                        Some(pc)
                    },
                    single_file: same,
                },
            )
        },
        None => None,
    }
}

/// Traces `pc` back to the source. Some line must start at or before `pc`.
pub fn get_line_info(line_numbers: &HashMap<u32, (String, u32)>, pc: u32) -> (location: Location)
    requires
        has_line(line_numbers@, pc),
    ensures
        is_closest(line_numbers@, pc, closest(line_numbers@, pc)),
        location@ == location_at(line_numbers@, pc, closest(line_numbers@, pc)),
{
    match locate(line_numbers, pc) {
        Some(location) => location,
        None => Location { file: String::new(), line: 0, offset: None, single_file: true },
    }
}

/// The text of a location.
pub fn location_text(location: &Location) -> (body: Vec<Span>)
    ensures
        spans_view(body@) == location_spans(location@),
{
    let mut place = String::new();
    if !location.single_file {
        place.append(location.file.as_str());
    }
    place.append(":");
    push_decimal(&mut place, location.line as i64);
    let mut body: Vec<Span> = Vec::new();
    match location.offset {
        None => {
            let ghost text = place@;
            body.push(span_owned(Tone::Plain, place));
            assert(spans_view(body@) =~= seq![span_of(Tone::Plain, text)]);
            assert(spans_view(body@) =~= location_spans(location@));
        },
        Some(pc) => {
            place.append(" (");
            let mut digits = String::new();
            push_hex_digits(&mut digits, pc);
            digits.append(")");
            let first = span_owned(Tone::Plain, place);
            let second = span(Tone::Yellow, "0x");
            let third = span_owned(Tone::Plain, digits);
            body.push(first);
            body.push(second);
            body.push(third);
            assert(spans_view(body@) =~= seq![first@, second@, third@]);
            assert(first@.text =~= (if location.single_file {
                Seq::<char>::empty()
            } else {
                location.file@
            }) + ":"@ + decimal(location.line as int) + " ("@);
            assert(third@.text =~= hex_digits(pc as nat) + ")"@);
            assert(spans_view(body@) =~= location_spans(location@));
        },
    }
    body
}

/// Reports a breakpoint at `pc`: under its label where it has one, at its
/// location otherwise.
pub fn breakpoint(label: Option<&str>, pc: u32, line_numbers: &HashMap<u32, (String, u32)>) -> (out:
    Output)
    requires
        has_line(line_numbers@, pc),
    ensures
        out@ == breakpoint_shown(
            match label {
                Some(text) => Some(text@),
                None => None,
            },
            location_at(line_numbers@, pc, closest(line_numbers@, pc)),
        ),
{
    let location = get_line_info(line_numbers, pc);
    let mut body: Vec<Span> = Vec::new();
    let open = span(Tone::CyanBold, "\n[BREAKPOINT ");
    let close = span(Tone::CyanBold, "]");
    body.push(open);
    assert(spans_view(body@) =~= seq![open@]);
    match label {
        Some(text) => {
            let named = span(Tone::Plain, text);
            body.push(named);
            assert(spans_view(body@) =~= seq![open@] + seq![named@]);
        },
        None => {
            push_spans(&mut body, location_text(&location));
        },
    }
    let ghost before = body@;
    body.push(close);
    assert(spans_view(body@) =~= spans_view(before) + seq![close@]);
    Output::new(Channel::Raw, body, 2)
}

/// The phrase for a watchpoint's action: a watchpoint for reads was read
/// from, any other was written to.
pub fn action_text(action: TargetAction) -> (phrase: &'static str)
    ensures
        phrase@ == action_phrase(action),
{
    match action {
        TargetAction::ReadOnly => "read from",
        TargetAction::WriteOnly => "written to",
        TargetAction::ReadWrite => "written to",
    }
}

/// Reports that a watchpoint was hit at `pc`.
pub fn watchpoint(watch: &TargetWatch, pc: u32, line_numbers: &HashMap<u32, (String, u32)>)
    -> (out: Output)
    requires
        has_line(line_numbers@, pc),
    ensures
        out@ == watchpoint_shown(
            watch.target@,
            watch.action,
            location_at(line_numbers@, pc, closest(line_numbers@, pc)),
        ),
{
    let location = get_line_info(line_numbers, pc);
    let mut body: Vec<Span> = Vec::new();
    let open = span(Tone::CyanBold, "\n[WATCHPOINT");
    let gap = span(Tone::Plain, " ");
    let close = span(Tone::CyanBold, "]");
    let mut tail = String::new();
    tail.append(" - ");
    tail.append(watch.target.as_str());
    tail.append(" was ");
    tail.append(action_text(watch.action));
    assert(tail@ =~= " - "@ + watch.target@ + " was "@ + action_phrase(watch.action));
    let last = span_owned(Tone::Plain, tail);
    body.push(open);
    body.push(gap);
    assert(spans_view(body@) =~= seq![open@, gap@]);
    push_spans(&mut body, location_text(&location));
    let ghost before = body@;
    body.push(close);
    body.push(last);
    assert(spans_view(body@) =~= spans_view(before) + seq![close@, last@]);
    Output::new(Channel::Raw, body, 2)
}

/// The file is named only where the program has more than one: with one
/// file the location starts at the colon, with several it starts with the
/// file of the line.
pub proof fn lemma_file_named_among_several(lines: Map<u32, (String, u32)>, pc: u32, key: u32)
    requires
        is_closest(lines, pc, key),
    ensures
        ({
            let location = location_at(lines, pc, key);
            let text = location_spans(location)[0].text;
            let line = decimal(lines[key].1 as int);
            let tail = if key == pc {
                Seq::<char>::empty()
            } else {
                " ("@
            };
            &&& single_file(lines) ==> text == ":"@ + line + tail
            &&& !single_file(lines) ==> text == lines[key].0@ + ":"@ + line + tail
        }),
{
    let location = location_at(lines, pc, key);
    let text = location_spans(location)[0].text;
    let line = decimal(lines[key].1 as int);
    if key == pc {
        assert(":"@ + line + Seq::<char>::empty() =~= ":"@ + line);
        assert(lines[key].0@ + ":"@ + line + Seq::<char>::empty() =~= lines[key].0@ + ":"@ + line);
    }
    if single_file(lines) {
        assert(Seq::<char>::empty() + ":"@ + line =~= ":"@ + line);
        assert(Seq::<char>::empty() + ":"@ + line + " ("@ =~= ":"@ + line + " ("@);
    }
}

/// A program counter at which a line starts is shown as that line alone; any
/// other is shown with the counter in hexadecimal, in brackets.
pub proof fn lemma_offset_shown_inside_expansion(
    lines: Map<u32, (String, u32)>,
    pc: u32,
    key: u32,
)
    requires
        is_closest(lines, pc, key),
    ensures
        ({
            let spans = location_spans(location_at(lines, pc, key));
            &&& key == pc ==> spans.len() == 1
            &&& key != pc ==> spans.len() == 3 && spans[1].text == "0x"@ && spans[2].text
                == hex_digits(pc as nat) + ")"@
        }),
{
}

/// A watchpoint for reads is reported as read from; one for writes, or for
/// reads and writes, as written to.
pub proof fn lemma_watchpoint_phrase(target: Seq<char>, action: TargetAction, location: LocationView)
    ensures
        action == TargetAction::ReadOnly ==> action_phrase(action) == "read from"@,
        action != TargetAction::ReadOnly ==> action_phrase(action) == "written to"@,
        watchpoint_shown(target, action, location).body.last().text == " - "@ + target + " was "@
            + action_phrase(action),
{
}

} // verus!
