//! System calls 13 to 16, which forward to the host's files. They are there
//! only with the host capability: without it each handler declines. A
//! handler does not call the host; it says which call to make.

use vstd::prelude::*;
use vstd::string::*;
use crate::output::{body1, span_owned, Channel, Output, Tone};
use crate::syscall::{only_verbose, shown, trace_plain};
use crate::text::{ascii_escape_all, decimal, push_ascii_escape_all, push_decimal};

verus! {

/// The capability to call the host, given when the emulator is set up.
#[derive(Clone, Copy, Debug, PartialEq, Eq, Structural)]
pub enum HostIo {
    Unsupported,
    Enabled,
}

/// The arguments of `open`: the path without its terminator, the flags and
/// the mode.
#[derive(Clone, Debug, PartialEq, Eq)]
pub struct OpenArgs {
    pub path: Vec<u8>,
    pub flags: u32,
    pub mode: u32,
}

/// The arguments of `read`.
#[derive(Clone, Copy, Debug, PartialEq, Eq)]
pub struct ReadArgs {
    pub fd: u32,
    pub len: u32,
}

/// The arguments of `write`.
#[derive(Clone, Debug, PartialEq, Eq)]
pub struct WriteArgs {
    pub fd: u32,
    pub buf: Vec<u8>,
}

/// The arguments of `close`.
#[derive(Clone, Copy, Debug, PartialEq, Eq)]
pub struct CloseArgs {
    pub fd: u32,
}

/// A call to make to the host.
#[derive(Clone, Debug, PartialEq, Eq)]
pub enum HostCall {
    Open { path: Vec<u8>, flags: i32, mode: u32 },
    /// Read into a buffer of `len` zero bytes.
    Read { fd: i32, len: usize },
    Write { fd: i32, buf: Vec<u8> },
    Close { fd: i32 },
}

/// A call to the host as contracts see it.
pub enum HostCallView {
    Open { path: Seq<u8>, flags: i32, mode: u32 },
    Read { fd: i32, len: usize },
    Write { fd: i32, buf: Seq<u8> },
    Close { fd: i32 },
}

impl View for HostCall {
    type V = HostCallView;

    open spec fn view(&self) -> HostCallView {
        match self {
            HostCall::Open { path, flags, mode } => HostCallView::Open {
                path: path@,
                flags: *flags,
                mode: *mode,
            },
            HostCall::Read { fd, len } => HostCallView::Read { fd: *fd, len: *len },
            HostCall::Write { fd, buf } => HostCallView::Write { fd: *fd, buf: buf@ },
            HostCall::Close { fd } => HostCallView::Close { fd: *fd },
        }
    }
}

/// What a host handler asks for: the trace line to show first, if any, and
/// the call to make.
#[derive(Debug, PartialEq, Eq)]
pub struct HostStep {
    pub trace: Option<Output>,
    pub call: HostCall,
}

/// Whether `step` is what a host handler owes: nothing without the
/// capability; with it, the call, and the trace line in verbose mode.
pub open spec fn host_step(
    host: HostIo,
    verbose: bool,
    code: u32,
    text: Seq<char>,
    call: HostCallView,
    step: Option<HostStep>,
) -> bool {
    match step {
        None => host == HostIo::Unsupported,
        Some(s) => host == HostIo::Enabled && s.call@ == call && shown(s.trace) == only_verbose(
            verbose,
            trace_plain(code, text, 1),
        ),
    }
}

/// The numerals of `bytes` in decimal, with a comma and a space between
/// them.
pub open spec fn byte_list(bytes: Seq<u8>) -> Seq<char>
    decreases bytes.len(),
{
    if bytes.len() == 0 {
        Seq::empty()
    } else if bytes.len() == 1 {
        decimal(bytes[0] as int)
    } else {
        byte_list(bytes.drop_last()) + ", "@ + decimal(bytes.last() as int)
    }
}

/// The trace text of `open`: the path escaped and in quotes.
pub open spec fn open_text(path: Seq<u8>, flags: u32, mode: u32) -> Seq<char> {
    "open(\""@ + ascii_escape_all(path) + "\", "@ + decimal(flags as int) + ", "@ + decimal(
        mode as int,
    ) + ")"@
}

/// The trace text of `read`.
pub open spec fn read_text(fd: u32, len: u32) -> Seq<char> {
    "read("@ + decimal(fd as int) + ", "@ + decimal(len as int) + ")"@
}

/// The trace text of `write`: the bytes as a list.
pub open spec fn write_text(fd: u32, buf: Seq<u8>) -> Seq<char> {
    "write("@ + decimal(fd as int) + ", ["@ + byte_list(buf) + "])"@
}

/// The trace text of `close`.
pub open spec fn close_text(fd: u32) -> Seq<char> {
    "close("@ + decimal(fd as int) + ")"@
}

fn step(verbose: bool, code: u32, text: String, call: HostCall) -> (s: Option<HostStep>)
    ensures
        host_step(HostIo::Enabled, verbose, code, text@, call@, s),
{
    if verbose {
        let line = Output::new(Channel::Syscall(code), body1(span_owned(Tone::Plain, text)), 1);
        Some(HostStep { trace: Some(line), call })
    } else {
        Some(HostStep { trace: None, call })
    }
}

fn signed(value: u32) -> (r: i32)
    ensures
        r == value as i32,
{
    #[verifier::truncate]
    (value as i32)
}

fn push_byte_list(out: &mut String, bytes: &Vec<u8>)
    ensures
        final(out)@ == old(out)@ + byte_list(bytes@),
{
    let mut i: usize = 0;
    assert(bytes@.take(0) =~= Seq::<u8>::empty());
    assert(out@ =~= old(out)@ + byte_list(bytes@.take(0)));
    while i < bytes.len()
        invariant
            i <= bytes.len(),
            out@ == old(out)@ + byte_list(bytes@.take(i as int)),
        decreases bytes.len() - i,
    {
        if i > 0 {
            out.append(", ");
        }
        push_decimal(out, bytes[i] as i64);
        proof {
            let next = bytes@.take(i + 1);
            assert(next.drop_last() =~= bytes@.take(i as int));
            assert(next.last() == bytes@[i as int]);
            assert(out@ =~= old(out)@ + byte_list(next));
        }
        i += 1;
    }
    assert(bytes@.take(i as int) =~= bytes@);
}

/// System call 13: opens a file of the host with the flags and the mode as
/// they are. The path holds no zero byte: its terminator was taken off.
pub fn sys13_open(host: HostIo, verbose: bool, args: OpenArgs) -> (s: Option<HostStep>)
    requires
        forall|i: int| 0 <= i < args.path@.len() ==> args.path@[i] != 0,
    ensures
        host_step(
            host,
            verbose,
            13,
            open_text(args.path@, args.flags, args.mode),
            HostCallView::Open { path: args.path@, flags: args.flags as i32, mode: args.mode },
            s,
        ),
{
    match host {
        HostIo::Unsupported => None,
        HostIo::Enabled => {
            let mut text = String::new();
            text.append("open(\"");
            push_ascii_escape_all(&mut text, args.path.as_slice());
            text.append("\", ");
            push_decimal(&mut text, args.flags as i64);
            text.append(", ");
            push_decimal(&mut text, args.mode as i64);
            text.append(")");
            assert(text@ =~= open_text(args.path@, args.flags, args.mode));
            let flags: i32 = signed(args.flags);
            step(verbose, 13, text, HostCall::Open { path: args.path, flags, mode: args.mode })
        },
    }
}

/// System call 14: reads from a file of the host into a buffer of the size
/// that was asked for.
pub fn sys14_read(host: HostIo, verbose: bool, args: ReadArgs) -> (s: Option<HostStep>)
    ensures
        host_step(
            host,
            verbose,
            14,
            read_text(args.fd, args.len),
            HostCallView::Read { fd: args.fd as i32, len: args.len as usize },
            s,
        ),
{
    match host {
        HostIo::Unsupported => None,
        HostIo::Enabled => {
            let mut text = String::new();
            text.append("read(");
            push_decimal(&mut text, args.fd as i64);
            text.append(", ");
            push_decimal(&mut text, args.len as i64);
            text.append(")");
            assert(text@ =~= read_text(args.fd, args.len));
            step(
                verbose,
                14,
                text,
                HostCall::Read { fd: signed(args.fd), len: args.len as usize },
            )
        },
    }
}

/// What system call 14 returns once the host has answered: the host's count
/// cut to 32 bits, and the whole buffer.
pub fn sys14_read_result(count: isize, buffer: Vec<u8>) -> (r: (i32, Vec<u8>))
    ensures
        r.0 == count as i32,
        r.1@ == buffer@,
{
    (
        #[verifier::truncate]
        (count as i32),
        buffer,
    )
}

/// System call 15: writes a buffer to a file of the host.
pub fn sys15_write(host: HostIo, verbose: bool, args: WriteArgs) -> (s: Option<HostStep>)
    ensures
        host_step(
            host,
            verbose,
            15,
            write_text(args.fd, args.buf@),
            HostCallView::Write { fd: args.fd as i32, buf: args.buf@ },
            s,
        ),
{
    match host {
        HostIo::Unsupported => None,
        HostIo::Enabled => {
            let mut text = String::new();
            text.append("write(");
            push_decimal(&mut text, args.fd as i64);
            text.append(", [");
            push_byte_list(&mut text, &args.buf);
            text.append("])");
            assert(text@ =~= write_text(args.fd, args.buf@));
            step(verbose, 15, text, HostCall::Write { fd: signed(args.fd), buf: args.buf })
        },
    }
}

/// What system call 15 returns once the host has answered: the host's count
/// cut to 32 bits.
pub fn sys15_write_result(count: isize) -> (r: i32)
    ensures
        r == count as i32,
{
    #[verifier::truncate]
    (count as i32)
}

/// System call 16: closes a file of the host.
pub fn sys16_close(host: HostIo, verbose: bool, args: CloseArgs) -> (s: Option<HostStep>)
    ensures
        host_step(
            host,
            verbose,
            16,
            close_text(args.fd),
            HostCallView::Close { fd: args.fd as i32 },
            s,
        ),
{
    match host {
        HostIo::Unsupported => None,
        HostIo::Enabled => {
            let mut text = String::new();
            text.append("close(");
            push_decimal(&mut text, args.fd as i64);
            text.append(")");
            assert(text@ =~= close_text(args.fd));
            step(verbose, 16, text, HostCall::Close { fd: signed(args.fd) })
        },
    }
}

} // verus!
