//! What the core hands to the presentation layer: text cut into spans, each
//! with the tone it is to be shown in, and the channel it is meant for. The
//! core never styles text itself.

use vstd::prelude::*;
use vstd::string::*;

verus! {

/// The tone a span of text is shown in.
#[derive(Clone, Copy, Debug, PartialEq, Eq, Structural)]
pub enum Tone {
    Plain,
    Bold,
    Green,
    Red,
    Yellow,
    Magenta,
    CyanBold,
    BrightRedBold,
}

/// A run of text in one tone.
#[derive(Clone, Debug, PartialEq, Eq)]
pub struct Span {
    pub tone: Tone,
    pub text: String,
}

/// A span as contracts see it.
pub struct SpanView {
    pub tone: Tone,
    pub text: Seq<char>,
}

impl View for Span {
    type V = SpanView;

    open spec fn view(&self) -> SpanView {
        SpanView { tone: self.tone, text: self.text@ }
    }
}

/// Where a piece of output goes.
#[derive(Clone, Copy, Debug, PartialEq, Eq, Structural)]
pub enum Channel {
    /// The emulated program's own console output, written as it is.
    Raw,
    /// A trace line of the system call with this label.
    Syscall(u32),
    /// An error notice.
    Error,
    /// A remedial hint.
    Tip,
    /// The answer to a command.
    Success,
}

/// One piece of output: its channel, its text, and how many line breaks
/// follow the text.
#[derive(Clone, Debug, PartialEq, Eq)]
pub struct Output {
    pub channel: Channel,
    pub body: Vec<Span>,
    pub newlines: u8,
}

/// An output as contracts see it.
pub struct OutputView {
    pub channel: Channel,
    pub body: Seq<SpanView>,
    pub newlines: u8,
}

/// The views of a sequence of spans.
pub open spec fn spans_view(spans: Seq<Span>) -> Seq<SpanView> {
    spans.map_values(|s: Span| s@)
}

impl View for Output {
    type V = OutputView;

    open spec fn view(&self) -> OutputView {
        OutputView {
            channel: self.channel,
            body: spans_view(self.body@),
            newlines: self.newlines,
        }
    }
}

/// The views of a sequence of outputs.
pub open spec fn outputs_view(outputs: Seq<Output>) -> Seq<OutputView> {
    outputs.map_values(|o: Output| o@)
}

/// The span of `text` in `tone`.
pub open spec fn span_of(tone: Tone, text: Seq<char>) -> SpanView {
    SpanView { tone, text }
}

/// The output on `channel` with this body and this many line breaks.
pub open spec fn output_of(channel: Channel, body: Seq<SpanView>, newlines: u8) -> OutputView {
    OutputView { channel, body, newlines }
}

/// The text of a body with the tones left out.
pub open spec fn plain_text(body: Seq<SpanView>) -> Seq<char>
    decreases body.len(),
{
    if body.len() == 0 {
        Seq::empty()
    } else {
        plain_text(body.drop_last()) + body.last().text
    }
}

/// A span holding a copy of `text`.
pub fn span(tone: Tone, text: &str) -> (s: Span)
    ensures
        s@ == span_of(tone, text@),
{
    Span { tone, text: text.to_owned() }
}

/// A span that takes over `text`.
pub fn span_owned(tone: Tone, text: String) -> (s: Span)
    ensures
        s@ == span_of(tone, text@),
{
    Span { tone, text }
}

/// The body made of one span.
pub fn body1(a: Span) -> (body: Vec<Span>)
    ensures
        spans_view(body@) == seq![a@],
{
    let mut body: Vec<Span> = Vec::new();
    body.push(a);
    assert(spans_view(body@) =~= seq![a@]);
    body
}

/// The body made of two spans.
pub fn body2(a: Span, b: Span) -> (body: Vec<Span>)
    ensures
        spans_view(body@) == seq![a@, b@],
{
    let mut body: Vec<Span> = Vec::new();
    body.push(a);
    body.push(b);
    assert(spans_view(body@) =~= seq![a@, b@]);
    body
}

/// The body made of three spans.
pub fn body3(a: Span, b: Span, c: Span) -> (body: Vec<Span>)
    ensures
        spans_view(body@) == seq![a@, b@, c@],
{
    let mut body: Vec<Span> = Vec::new();
    body.push(a);
    body.push(b);
    body.push(c);
    assert(spans_view(body@) =~= seq![a@, b@, c@]);
    body
}

/// The body made of four spans.
pub fn body4(a: Span, b: Span, c: Span, d: Span) -> (body: Vec<Span>)
    ensures
        spans_view(body@) == seq![a@, b@, c@, d@],
{
    let mut body: Vec<Span> = Vec::new();
    body.push(a);
    body.push(b);
    body.push(c);
    body.push(d);
    assert(spans_view(body@) =~= seq![a@, b@, c@, d@]);
    body
}

/// The list made of one output.
pub fn outputs1(a: Output) -> (outputs: Vec<Output>)
    ensures
        outputs_view(outputs@) == seq![a@],
{
    let mut outputs: Vec<Output> = Vec::new();
    outputs.push(a);
    assert(outputs_view(outputs@) =~= seq![a@]);
    outputs
}

impl Output {
    /// The output on `channel` with this body and this many line breaks.
    pub fn new(channel: Channel, body: Vec<Span>, newlines: u8) -> (out: Output)
        ensures
            out@ == output_of(channel, spans_view(body@), newlines),
    {
        Output { channel, body, newlines }
    }

    /// The text of the body with the tones left out.
    pub fn text(&self) -> (s: String)
        ensures
            s@ == plain_text(self@.body),
    {
        let mut s = String::new();
        let mut i: usize = 0;
        assert(spans_view(self.body@).take(0) =~= Seq::<SpanView>::empty());
        while i < self.body.len()
            invariant
                i <= self.body.len(),
                s@ == plain_text(spans_view(self.body@).take(i as int)),
            decreases self.body.len() - i,
        {
            s.append(self.body[i].text.as_str());
            proof {
                let all = spans_view(self.body@);
                let next = all.take(i + 1);
                assert(next.drop_last() =~= all.take(i as int));
                assert(next.last() == self.body@[i as int]@);
            }
            i += 1;
        }
        assert(spans_view(self.body@).take(i as int) =~= spans_view(self.body@));
        s
    }
}

} // verus!
