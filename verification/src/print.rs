//! The print command: shows a register, every register, or what memory
//! holds at an address, in the representation that was asked for.

use vstd::prelude::*;
use vstd::string::*;
use crate::error::{
    CompileError, CompileErrorView, MipsyError, MipsyErrorView, RuntimeError, RuntimeErrorView,
};
use crate::item::{item_of, lower, parse_item, to_lower, Item, ItemView};
use crate::output::{
    body1, body3, body4, output_of, outputs1, outputs_view, span, span_of, span_owned, Channel,
    Output, OutputView, Tone,
};
use crate::printer::{
    format_simple_print, format_string, formatted, is_hex, parse_print_type, print_type_named,
    string_print, PrintType,
};
use crate::register::{register_name_of, register_named, Register};
use crate::state::{RuntimeState, StateView};
use crate::text::{decimal, decimal_string, pad_right, push_decimal, push_padded, str_eq};

verus! {

/// A name that the loaded program gives to an address.
#[derive(Clone, Debug, PartialEq, Eq)]
pub struct Label {
    pub name: String,
    pub addr: u32,
}

/// What the print command reads of the loaded program: its labels, in the
/// order in which they were defined.
#[derive(Clone, Debug, PartialEq, Eq)]
pub struct Binary {
    pub labels: Vec<Label>,
}

/// The labels as contracts see them.
pub open spec fn labels_view(labels: Seq<Label>) -> Seq<(Seq<char>, u32)> {
    labels.map_values(|l: Label| (l.name@, l.addr))
}

impl View for Binary {
    type V = Seq<(Seq<char>, u32)>;

    open spec fn view(&self) -> Seq<(Seq<char>, u32)> {
        labels_view(self.labels@)
    }
}

/// The address of the first label called `name`.
pub open spec fn label_addr(labels: Seq<(Seq<char>, u32)>, name: Seq<char>) -> Option<u32>
    decreases labels.len(),
{
    if labels.len() == 0 {
        None
    } else if labels[0].0 == name {
        Some(labels[0].1)
    } else {
        label_addr(labels.skip(1), name)
    }
}

impl Binary {
    /// The address that the program gives to `name`.
    pub fn get_label(&self, name: &str) -> (r: Result<u32, MipsyError>)
        ensures
            match r {
                Ok(addr) => label_addr(self@, name@) == Some(addr),
                Err(e) => label_addr(self@, name@) is None && e@ == MipsyErrorView::Compile(
                    CompileErrorView::UnresolvedLabel { label: name@ },
                ),
            },
    {
        let mut i: usize = 0;
        assert(self@.skip(0) =~= self@);
        while i < self.labels.len()
            invariant
                i <= self.labels.len(),
                label_addr(self@, name@) == label_addr(self@.skip(i as int), name@),
            decreases self.labels.len() - i,
        {
            proof {
                let rest = self@.skip(i as int);
                assert(rest[0] == (self.labels@[i as int].name@, self.labels@[i as int].addr));
                assert(rest.skip(1) =~= self@.skip(i + 1));
            }
            if str_eq(self.labels[i].name.as_str(), name) {
                return Ok(self.labels[i].addr);
            }
            i += 1;
        }
        Err(MipsyError::Compile(CompileError::UnresolvedLabel { label: name.to_owned() }))
    }
}

/// The views of the arguments of a command.
pub open spec fn texts(args: Seq<String>) -> Seq<Seq<char>> {
    args.map_values(|s: String| s@)
}

/// The error for an item that cannot be read: it names the argument, echoes
/// what was given, and carries a tip.
pub open spec fn bad_item(given: Seq<char>) -> MipsyErrorView {
    MipsyErrorView::Runtime(
        RuntimeErrorView::WithTip {
            error: Box::new(RuntimeErrorView::BadArgument { arg: "<item>"@, instead: given }),
            tip: "try `help print`"@,
        },
    )
}

/// The error for a representation that does not exist.
pub open spec fn bad_type(given: Seq<char>) -> MipsyErrorView {
    MipsyErrorView::Runtime(RuntimeErrorView::BadArgument { arg: "<type>"@, instead: given })
}

/// The error for a register that does not exist.
pub open spec fn unknown_register(given: Seq<char>) -> MipsyErrorView {
    MipsyErrorView::Runtime(RuntimeErrorView::UnknownRegister { register: given })
}

/// The error for a label that the program does not define.
pub open spec fn unknown_label(given: Seq<char>) -> MipsyErrorView {
    MipsyErrorView::Runtime(RuntimeErrorView::UnknownLabel { label: given })
}

/// The error for memory at `addr` that cannot be read.
pub open spec fn uninitialised_print(addr: u32) -> MipsyErrorView {
    MipsyErrorView::Runtime(RuntimeErrorView::UninitialisedPrint { addr })
}

/// The error for a command that needs a loaded program.
pub open spec fn must_load_file() -> MipsyErrorView {
    MipsyErrorView::Runtime(RuntimeErrorView::MustLoadFile)
}

/// The name of the representation that was asked for: the second argument,
/// or `word` where there is none.
pub open spec fn requested_type(args: Seq<Seq<char>>) -> Seq<char> {
    if args.len() > 1 {
        args[1]
    } else {
        "word"@
    }
}

/// How a value shows in an answer: as it is formatted, with `0x` before it
/// where it is hexadecimal.
pub open spec fn shown_value(value: i32, kind: PrintType) -> Seq<char>
    recommends
        kind != PrintType::Str,
{
    if is_hex(kind) {
        "0x"@ + formatted(value, kind)
    } else {
        formatted(value, kind)
    }
}

/// The notice that a register was never written: it names the register.
pub open spec fn uninitialised_notice(reg_name: Seq<char>) -> OutputView {
    output_of(
        Channel::Error,
        seq![
            span_of(Tone::Yellow, "$"@),
            span_of(Tone::Bold, reg_name),
            span_of(Tone::Plain, " is uninitialized"@),
        ],
        2,
    )
}

/// The two notices that a register cannot be printed as a string.
pub open spec fn string_unsupported() -> Seq<OutputView> {
    seq![
        output_of(
            Channel::Error,
            seq![
                span_of(Tone::Magenta, "[type]"@),
                span_of(Tone::Plain, " `string` unsupported for "@),
                span_of(Tone::Magenta, "<item>"@),
                span_of(Tone::Plain, " `register`"@),
            ],
            1,
        ),
        output_of(
            Channel::Tip,
            seq![
                span_of(Tone::Plain, "try using an address instead - `"@),
                span_of(Tone::Bold, "help print"@),
                span_of(Tone::Plain, "`"@),
            ],
            2,
        ),
    ]
}

/// The answer that shows one register.
pub open spec fn register_answer(reg_name: Seq<char>, value: Seq<char>) -> OutputView {
    output_of(
        Channel::Success,
        seq![
            span_of(Tone::Yellow, "$"@),
            span_of(Tone::Bold, reg_name),
            span_of(Tone::Plain, " = "@),
            span_of(Tone::Plain, value),
        ],
        2,
    )
}

/// The line that shows one register among all of them: the name takes four
/// columns.
pub open spec fn register_line(reg_name: Seq<char>, value: Seq<char>) -> OutputView {
    output_of(
        Channel::Raw,
        seq![
            span_of(Tone::Yellow, "$"@),
            span_of(Tone::Bold, pad_right(reg_name, 4)),
            span_of(Tone::Plain, " = "@),
            span_of(Tone::Plain, value),
        ],
        1,
    )
}

/// The line that shows `lo`, `hi` or the program counter among all
/// registers: the value is always in decimal, and `newlines` line breaks
/// follow it.
pub open spec fn special_line(label: Seq<char>, value: int, newlines: u8) -> OutputView {
    output_of(
        Channel::Raw,
        seq![span_of(Tone::Plain, " "@ + pad_right(label, 4) + " = "@ + decimal(value))],
        newlines,
    )
}

/// The answer that shows what memory holds: the item as it was given, and
/// the value.
pub open spec fn address_answer(shown: Seq<char>, value: Seq<char>) -> OutputView {
    output_of(Channel::Success, seq![span_of(Tone::Plain, shown + " = "@ + value)], 2)
}

/// What printing one register gives: a notice where it was never written; a
/// notice that a register has no string form where that was asked for; the
/// answer otherwise.
pub open spec fn register_report(value: Option<i32>, reg_name: Seq<char>, kind: PrintType) -> Seq<
    OutputView,
> {
    match value {
        None => seq![uninitialised_notice(reg_name)],
        Some(v) => if kind == PrintType::Str {
            string_unsupported()
        } else {
            seq![register_answer(reg_name, shown_value(v, kind))]
        },
    }
}

/// The lines of the general-purpose registers below number `n` that were
/// written, in order.
pub open spec fn register_lines(state: StateView, kind: PrintType, n: nat) -> Seq<OutputView>
    decreases n,
{
    if n == 0 {
        Seq::empty()
    } else {
        let before = register_lines(state, kind, (n - 1) as nat);
        match state.reg(n - 1) {
            Some(v) => before.push(
                register_line(register_name_of(n - 1), shown_value(v, kind)),
            ),
            None => before,
        }
    }
}

/// The lines of `lo` and `hi`, each where it was written, and of the program
/// counter, which ends the list with an empty line.
pub open spec fn special_lines(state: StateView) -> Seq<OutputView> {
    (match state.lo {
        Some(v) => seq![special_line("lo"@, v as int, 1)],
        None => Seq::empty(),
    }) + (match state.hi {
        Some(v) => seq![special_line("hi"@, v as int, 1)],
        None => Seq::empty(),
    }) + seq![special_line("pc"@, state.pc as int, 2)]
}

/// What printing all registers gives: the notice that registers have no
/// string form where one was asked for; otherwise the line of every written
/// register, then `lo`, `hi` and the program counter.
pub open spec fn all_report(state: StateView, kind: PrintType) -> Seq<OutputView> {
    if kind == PrintType::Str {
        string_unsupported()
    } else {
        register_lines(state, kind, 32) + special_lines(state)
    }
}

/// What printing a register by name gives. The name counts in lower case:
/// `pc`, `hi` and `lo` are the special registers, the others are looked up.
/// A name that is no register's is echoed as it was given.
pub open spec fn named_register_report(state: StateView, name: Seq<char>, kind: PrintType)
    -> Result<Seq<OutputView>, MipsyErrorView> {
    let lowered = lower(name);
    if lowered == "pc"@ {
        Ok(register_report(Some(state.pc as i32), "pc"@, kind))
    } else if lowered == "hi"@ {
        Ok(register_report(state.hi, "hi"@, kind))
    } else if lowered == "lo"@ {
        Ok(register_report(state.lo, "lo"@, kind))
    } else {
        match register_named(lowered) {
            Some(n) => Ok(register_report(state.reg(n as int), register_name_of(n as int), kind)),
            None => Err(unknown_register(name)),
        }
    }
}

/// What printing a register by number gives.
pub open spec fn numbered_register_report(state: StateView, number: u8, kind: PrintType) -> Result<
    Seq<OutputView>,
    MipsyErrorView,
> {
    if number < 32 {
        Ok(register_report(state.reg(number as int), register_name_of(number as int), kind))
    } else {
        Err(unknown_register(decimal(number as int)))
    }
}

/// How memory at `addr` shows in a representation: the byte, the half or the
/// word there, taken as a cell; or the string that starts there.
pub open spec fn address_value(state: StateView, addr: u32, kind: PrintType) -> Result<
    Seq<char>,
    MipsyErrorView,
> {
    if kind == PrintType::Str {
        string_print(state, addr as int)
    } else if kind == PrintType::Half || kind == PrintType::XHalf {
        match state.half(addr as int) {
            Some(h) => Ok(shown_value(h as i32, kind)),
            None => Err(uninitialised_print(addr)),
        }
    } else if kind == PrintType::Word || kind == PrintType::XWord {
        match state.word(addr as int) {
            Some(w) => Ok(shown_value(w as i32, kind)),
            None => Err(uninitialised_print(addr)),
        }
    } else {
        match state.byte(addr as int) {
            Some(b) => Ok(shown_value(b as i32, kind)),
            None => Err(uninitialised_print(addr)),
        }
    }
}

/// What printing memory at `addr` gives.
pub open spec fn address_report(state: StateView, addr: u32, kind: PrintType, shown: Seq<char>)
    -> Result<Seq<OutputView>, MipsyErrorView> {
    match address_value(state, addr, kind) {
        Ok(value) => Ok(seq![address_answer(shown, value)]),
        Err(e) => Err(e),
    }
}

/// What printing an item gives.
pub open spec fn item_report(
    labels: Seq<(Seq<char>, u32)>,
    state: StateView,
    item: ItemView,
    kind: PrintType,
    shown: Seq<char>,
) -> Result<Seq<OutputView>, MipsyErrorView> {
    match item {
        ItemView::NamedRegister(name) => if name == "all"@ {
            Ok(all_report(state, kind))
        } else {
            named_register_report(state, name, kind)
        },
        ItemView::NumberedRegister(number) => numbered_register_report(state, number, kind),
        ItemView::Address(addr) => address_report(state, addr, kind, shown),
        ItemView::Label(name) => match label_addr(labels, name) {
            Some(addr) => address_report(state, addr, kind, shown),
            None => Err(unknown_label(name)),
        },
    }
}

/// What the print command gives for its arguments: the item is read first,
/// then the representation, then a program must be loaded, then the item is
/// printed.
pub open spec fn print_report(
    binary: Option<Seq<(Seq<char>, u32)>>,
    state: Option<StateView>,
    args: Seq<Seq<char>>,
) -> Result<Seq<OutputView>, MipsyErrorView> {
    match item_of(args[0]) {
        None => Err(bad_item(args[0])),
        Some(item) => match print_type_named(requested_type(args)) {
            None => Err(bad_type(requested_type(args))),
            Some(kind) => if binary is None || state is None {
                Err(must_load_file())
            } else {
                item_report(binary->0, state->0, item, kind, args[0])
            },
        },
    }
}

/// Whether `r` is what `expected` says.
pub open spec fn report_is(
    r: Result<Vec<Output>, MipsyError>,
    expected: Result<Seq<OutputView>, MipsyErrorView>,
) -> bool {
    match r {
        Ok(outputs) => expected == Ok::<Seq<OutputView>, MipsyErrorView>(outputs_view(outputs@)),
        Err(e) => expected == Err::<Seq<OutputView>, MipsyErrorView>(e@),
    }
}

fn value_text(value: i32, kind: PrintType) -> (text: String)
    requires
        kind != PrintType::Str,
    ensures
        text@ == shown_value(value, kind),
{
    let mut text = String::new();
    match kind {
        PrintType::XByte | PrintType::XHalf | PrintType::XWord => {
            text.append("0x");
        },
        _ => {},
    }
    text.append(format_simple_print(value, kind).as_str());
    text
}

fn unsupported_outputs() -> (outputs: Vec<Output>)
    ensures
        outputs_view(outputs@) == string_unsupported(),
{
    let first = Output::new(
        Channel::Error,
        body4(
            span(Tone::Magenta, "[type]"),
            span(Tone::Plain, " `string` unsupported for "),
            span(Tone::Magenta, "<item>"),
            span(Tone::Plain, " `register`"),
        ),
        1,
    );
    let second = Output::new(
        Channel::Tip,
        body3(
            span(Tone::Plain, "try using an address instead - `"),
            span(Tone::Bold, "help print"),
            span(Tone::Plain, "`"),
        ),
        2,
    );
    let mut outputs: Vec<Output> = Vec::new();
    outputs.push(first);
    outputs.push(second);
    assert(outputs_view(outputs@) =~= string_unsupported());
    outputs
}

fn print_register(value: Result<i32, MipsyError>, reg_name: &str, kind: PrintType) -> (outputs:
    Vec<Output>)
    ensures
        outputs_view(outputs@) == register_report(
            match value {
                Ok(v) => Some(v),
                Err(_) => None,
            },
            reg_name@,
            kind,
        ),
{
    match value {
        Err(_) => outputs1(
            Output::new(
                Channel::Error,
                body3(
                    span(Tone::Yellow, "$"),
                    span(Tone::Bold, reg_name),
                    span(Tone::Plain, " is uninitialized"),
                ),
                2,
            ),
        ),
        Ok(v) => match kind {
            PrintType::Str => unsupported_outputs(),
            _ => outputs1(
                Output::new(
                    Channel::Success,
                    body4(
                        span(Tone::Yellow, "$"),
                        span(Tone::Bold, reg_name),
                        span(Tone::Plain, " = "),
                        span_owned(Tone::Plain, value_text(v, kind)),
                    ),
                    2,
                ),
            ),
        },
    }
}

fn special_output(label: &str, value: i64, newlines: u8) -> (out: Output)
    ensures
        out@ == special_line(label@, value as int, newlines),
{
    let mut text = String::new();
    text.append(" ");
    push_padded(&mut text, label, 4);
    text.append(" = ");
    push_decimal(&mut text, value);
    assert(text@ =~= " "@ + pad_right(label@, 4) + " = "@ + decimal(value as int));
    Output::new(Channel::Raw, body1(span_owned(Tone::Plain, text)), newlines)
}

fn print_all(state: &RuntimeState, kind: PrintType) -> (outputs: Vec<Output>)
    ensures
        outputs_view(outputs@) == all_report(state@, kind),
{
    match kind {
        PrintType::Str => {
            return unsupported_outputs();
        },
        _ => {},
    }
    let mut outputs: Vec<Output> = Vec::new();
    let mut n: u32 = 0;
    assert(outputs_view(outputs@) =~= register_lines(state@, kind, 0));
    while n < 32
        invariant
            n <= 32,
            kind != PrintType::Str,
            outputs_view(outputs@) == register_lines(state@, kind, n as nat),
        decreases 32 - n,
    {
        match Register::from_number(n) {
            Ok(register) => {
                match state.get_reg(register.to_u32()) {
                    Ok(v) => {
                        let mut name = String::new();
                        push_padded(&mut name, register.to_lower_str(), 4);
                        assert(name@ =~= pad_right(register_name_of(n as int), 4));
                        let line = Output::new(
                            Channel::Raw,
                            body4(
                                span(Tone::Yellow, "$"),
                                span_owned(Tone::Bold, name),
                                span(Tone::Plain, " = "),
                                span_owned(Tone::Plain, value_text(v, kind)),
                            ),
                            1,
                        );
                        let ghost before = outputs@;
                        outputs.push(line);
                        assert(outputs_view(outputs@) =~= outputs_view(before).push(line@));
                    },
                    Err(_) => {},
                }
            },
            Err(_) => {},
        }
        n += 1;
    }
    match state.get_lo() {
        Ok(v) => {
            let line = special_output("lo", v as i64, 1);
            outputs.push(line);
        },
        Err(_) => {},
    }
    match state.get_hi() {
        Ok(v) => {
            let line = special_output("hi", v as i64, 1);
            outputs.push(line);
        },
        Err(_) => {},
    }
    let line = special_output("pc", state.get_pc() as i64, 2);
    outputs.push(line);
    assert(outputs_view(outputs@) =~= register_lines(state@, kind, 32) + special_lines(state@));
    outputs
}

fn print_address(state: &RuntimeState, addr: u32, kind: PrintType, shown: &str) -> (r: Result<
    Vec<Output>,
    MipsyError,
>)
    ensures
        report_is(r, address_report(state@, addr, kind, shown@)),
{
    let value: String = match kind {
        PrintType::Str => match format_string(state, addr) {
            Ok(text) => text,
            Err(e) => { return Err(e); },
        },
        PrintType::Half | PrintType::XHalf => match state.get_half(addr) {
            Ok(h) => value_text(h as i32, kind),
            Err(_) => {
                return Err(MipsyError::Runtime(RuntimeError::UninitialisedPrint { addr }));
            },
        },
        PrintType::Word | PrintType::XWord => match state.get_word(addr) {
            Ok(w) => value_text(
                #[verifier::truncate]
                (w as i32),
                kind,
            ),
            Err(_) => {
                return Err(MipsyError::Runtime(RuntimeError::UninitialisedPrint { addr }));
            },
        },
        _ => match state.get_byte(addr) {
            Ok(b) => value_text(b as i32, kind),
            Err(_) => {
                return Err(MipsyError::Runtime(RuntimeError::UninitialisedPrint { addr }));
            },
        },
    };
    let mut text = String::new();
    text.append(shown);
    text.append(" = ");
    text.append(value.as_str());
    assert(text@ =~= shown@ + " = "@ + value@);
    Ok(outputs1(Output::new(Channel::Success, body1(span_owned(Tone::Plain, text)), 2)))
}

fn print_named(state: &RuntimeState, name: &str, kind: PrintType) -> (r: Result<
    Vec<Output>,
    MipsyError,
>)
    ensures
        report_is(r, named_register_report(state@, name@, kind)),
{
    let lowered = to_lower(name);
    if str_eq(lowered.as_str(), "pc") {
        let pc: i32 = #[verifier::truncate]
        (state.get_pc() as i32);
        Ok(print_register(Ok(pc), "pc", kind))
    } else if str_eq(lowered.as_str(), "hi") {
        Ok(print_register(state.get_hi(), "hi", kind))
    } else if str_eq(lowered.as_str(), "lo") {
        Ok(print_register(state.get_lo(), "lo", kind))
    } else {
        match Register::from_str(lowered.as_str()) {
            Ok(register) => Ok(
                print_register(state.get_reg(register.to_u32()), register.to_lower_str(), kind),
            ),
            Err(_) => Err(
                MipsyError::Runtime(RuntimeError::UnknownRegister { register: name.to_owned() }),
            ),
        }
    }
}

fn print_numbered(state: &RuntimeState, number: u8, kind: PrintType) -> (r: Result<
    Vec<Output>,
    MipsyError,
>)
    ensures
        report_is(r, numbered_register_report(state@, number, kind)),
{
    match Register::from_number(number as u32) {
        Ok(register) => Ok(
            print_register(state.get_reg(register.to_u32()), register.to_lower_str(), kind),
        ),
        Err(_) => Err(
            MipsyError::Runtime(
                RuntimeError::UnknownRegister { register: decimal_string(number as i64) },
            ),
        ),
    }
}

fn bad_item_error(given: &str) -> (e: MipsyError)
    ensures
        e@ == bad_item(given@),
{
    let inner = RuntimeError::BadArgument { arg: "<item>".to_owned(), instead: given.to_owned() };
    MipsyError::Runtime(inner.with_tip("try `help print`".to_owned()))
}

/// Runs the print command on its arguments: the item, and the representation
/// where one is given. `binary` and `runtime` are there when a program is
/// loaded.
pub fn print_command(
    binary: Option<&Binary>,
    runtime: Option<&RuntimeState>,
    args: &Vec<String>,
) -> (r: Result<Vec<Output>, MipsyError>)
    requires
        args.len() >= 1,
    ensures
        report_is(
            r,
            print_report(
                match binary {
                    Some(b) => Some(b@),
                    None => None,
                },
                match runtime {
                    Some(s) => Some(s@),
                    None => None,
                },
                texts(args@),
            ),
        ),
{
    let shown: &str = args[0].as_str();
    let item: Item = match parse_item(shown) {
        Some(item) => item,
        None => { return Err(bad_item_error(shown)); },
    };
    let requested: &str = if args.len() > 1 {
        args[1].as_str()
    } else {
        "word"
    };
    assert(requested@ == requested_type(texts(args@)));
    let kind: PrintType = match parse_print_type(requested) {
        Some(kind) => kind,
        None => {
            return Err(
                MipsyError::Runtime(
                    RuntimeError::BadArgument {
                        arg: "<type>".to_owned(),
                        instead: requested.to_owned(),
                    },
                ),
            );
        },
    };
    let binary: &Binary = match binary {
        Some(b) => b,
        None => { return Err(MipsyError::Runtime(RuntimeError::MustLoadFile)); },
    };
    let state: &RuntimeState = match runtime {
        Some(s) => s,
        None => { return Err(MipsyError::Runtime(RuntimeError::MustLoadFile)); },
    };
    match item {
        Item::NamedRegister(name) => {
            if str_eq(name.as_str(), "all") {
                Ok(print_all(state, kind))
            } else {
                print_named(state, name.as_str(), kind)
            }
        },
        Item::NumberedRegister(number) => print_numbered(state, number, kind),
        Item::Address(addr) => print_address(state, addr, kind, shown),
        Item::Label(name) => match binary.get_label(name.as_str()) {
            Ok(addr) => print_address(state, addr, kind, shown),
            Err(_) => Err(MipsyError::Runtime(RuntimeError::UnknownLabel { label: name })),
        },
    }
}

/// A register has no string form: asking for one gives the two notices and
/// nothing else, for every register that was written.
pub proof fn lemma_register_has_no_string(state: StateView, number: u8)
    requires
        number < 32,
        state.reg(number as int) is Some,
    ensures
        numbered_register_report(state, number, PrintType::Str) == Ok::<
            Seq<OutputView>,
            MipsyErrorView,
        >(string_unsupported()),
        string_unsupported().len() == 2,
        string_unsupported()[0].channel == Channel::Error,
        string_unsupported()[1].channel == Channel::Tip,
{
}

/// All registers together have no string form either, whatever was written:
/// asking for one gives the two notices and no line of any register.
pub proof fn lemma_all_registers_have_no_string(state: StateView)
    ensures
        all_report(state, PrintType::Str) == string_unsupported(),
{
}

/// So it is for the special registers: the program counter always, `hi` and
/// `lo` where they were written.
pub proof fn lemma_special_register_has_no_string(state: StateView, name: Seq<char>)
    requires
        lower(name) == "pc"@ || (lower(name) == "hi"@ && state.hi is Some) || (lower(name) == "lo"@
            && state.lo is Some),
    ensures
        named_register_report(state, name, PrintType::Str) == Ok::<Seq<OutputView>, MipsyErrorView>(
            string_unsupported(),
        ),
{
    reveal_strlit("pc");
    reveal_strlit("hi");
    reveal_strlit("lo");
    assert("pc"@[0] == 'p' && "hi"@[0] == 'h' && "lo"@[0] == 'l');
}

/// A register that was never written is answered with the notice that names
/// it, in whatever representation it was asked for.
pub proof fn lemma_unwritten_register_is_named(state: StateView, number: u8, kind: PrintType)
    requires
        number < 32,
        state.reg(number as int) is None,
    ensures
        numbered_register_report(state, number, kind) == Ok::<Seq<OutputView>, MipsyErrorView>(
            seq![uninitialised_notice(register_name_of(number as int))],
        ),
        uninitialised_notice(register_name_of(number as int)).body[1].text == register_name_of(
            number as int,
        ),
{
}

/// A register that does not exist is answered with the error that echoes
/// the number that was given.
pub proof fn lemma_unknown_register_is_echoed(state: StateView, number: u8, kind: PrintType)
    requires
        number >= 32,
    ensures
        numbered_register_report(state, number, kind) == Err::<Seq<OutputView>, MipsyErrorView>(
            unknown_register(decimal(number as int)),
        ),
{
}

/// A name that is no register's comes back in the error as it was given,
/// capitals and all.
pub proof fn lemma_unknown_name_is_echoed(state: StateView, name: Seq<char>, kind: PrintType)
    requires
        lower(name) != "pc"@,
        lower(name) != "hi"@,
        lower(name) != "lo"@,
        register_named(lower(name)) is None,
    ensures
        named_register_report(state, name, kind) == Err::<Seq<OutputView>, MipsyErrorView>(
            unknown_register(name),
        ),
{
}

} // verus!
