//! The two-phase error taxonomy: every error is tagged as coming from
//! compile time or from run time, and each phase has its own closed set of
//! variants.

use vstd::prelude::*;

verus! {

/// Errors of the compile phase: a name that the loaded program or the
/// register file does not know.
#[derive(Clone, Debug, PartialEq, Eq)]
pub enum CompileError {
    UnresolvedLabel { label: String },
    NamedRegisterUnknown { name: String },
    NumberedRegisterOutOfRange { number: u32 },
}

/// Errors of the run phase.
#[derive(Debug, PartialEq, Eq)]
pub enum RuntimeError {
    /// A register or a byte of memory was read that was never written.
    Uninitialised,
    BadArgument { arg: String, instead: String },
    UnknownRegister { register: String },
    UnknownLabel { label: String },
    UninitialisedPrint { addr: u32 },
    UnterminatedString { good_parts: String },
    MustLoadFile,
    /// Another error together with remedial text.
    WithTip { error: Box<RuntimeError>, tip: String },
}

/// An error of either phase.
#[derive(Debug, PartialEq, Eq)]
pub enum MipsyError {
    Compile(CompileError),
    Runtime(RuntimeError),
}

/// What a run-phase error is matched on: its variant, whatever tips
/// decorate it.
#[derive(Clone, Copy, Debug, PartialEq, Eq, Structural)]
pub enum ErrorKind {
    Uninitialised,
    BadArgument,
    UnknownRegister,
    UnknownLabel,
    UninitialisedPrint,
    UnterminatedString,
    MustLoadFile,
}

/// A compile-phase error as contracts see it.
pub enum CompileErrorView {
    UnresolvedLabel { label: Seq<char> },
    NamedRegisterUnknown { name: Seq<char> },
    NumberedRegisterOutOfRange { number: u32 },
}

/// A run-phase error as contracts see it.
pub enum RuntimeErrorView {
    Uninitialised,
    BadArgument { arg: Seq<char>, instead: Seq<char> },
    UnknownRegister { register: Seq<char> },
    UnknownLabel { label: Seq<char> },
    UninitialisedPrint { addr: u32 },
    UnterminatedString { good_parts: Seq<char> },
    MustLoadFile,
    WithTip { error: Box<RuntimeErrorView>, tip: Seq<char> },
}

/// An error as contracts see it.
pub enum MipsyErrorView {
    Compile(CompileErrorView),
    Runtime(RuntimeErrorView),
}

impl View for CompileError {
    type V = CompileErrorView;

    open spec fn view(&self) -> CompileErrorView {
        match self {
            CompileError::UnresolvedLabel { label } => CompileErrorView::UnresolvedLabel {
                label: label@,
            },
            CompileError::NamedRegisterUnknown { name } => CompileErrorView::NamedRegisterUnknown {
                name: name@,
            },
            CompileError::NumberedRegisterOutOfRange {
                number,
            } => CompileErrorView::NumberedRegisterOutOfRange { number: *number },
        }
    }
}

impl View for RuntimeError {
    type V = RuntimeErrorView;

    open spec fn view(&self) -> RuntimeErrorView
        decreases self,
    {
        match self {
            RuntimeError::Uninitialised => RuntimeErrorView::Uninitialised,
            RuntimeError::BadArgument { arg, instead } => RuntimeErrorView::BadArgument {
                arg: arg@,
                instead: instead@,
            },
            RuntimeError::UnknownRegister { register } => RuntimeErrorView::UnknownRegister {
                register: register@,
            },
            RuntimeError::UnknownLabel { label } => RuntimeErrorView::UnknownLabel {
                label: label@,
            },
            RuntimeError::UninitialisedPrint { addr } => RuntimeErrorView::UninitialisedPrint {
                addr: *addr,
            },
            RuntimeError::UnterminatedString {
                good_parts,
            } => RuntimeErrorView::UnterminatedString { good_parts: good_parts@ },
            RuntimeError::MustLoadFile => RuntimeErrorView::MustLoadFile,
            RuntimeError::WithTip { error, tip } => RuntimeErrorView::WithTip {
                error: Box::new((**error).view()),
                tip: tip@,
            },
        }
    }
}

impl View for MipsyError {
    type V = MipsyErrorView;

    open spec fn view(&self) -> MipsyErrorView {
        match self {
            MipsyError::Compile(e) => MipsyErrorView::Compile(e@),
            MipsyError::Runtime(e) => MipsyErrorView::Runtime(e@),
        }
    }
}

impl RuntimeErrorView {
    /// The kind of the error under all its tips.
    pub open spec fn kind(self) -> ErrorKind
        decreases self,
    {
        match self {
            RuntimeErrorView::Uninitialised => ErrorKind::Uninitialised,
            RuntimeErrorView::BadArgument { .. } => ErrorKind::BadArgument,
            RuntimeErrorView::UnknownRegister { .. } => ErrorKind::UnknownRegister,
            RuntimeErrorView::UnknownLabel { .. } => ErrorKind::UnknownLabel,
            RuntimeErrorView::UninitialisedPrint { .. } => ErrorKind::UninitialisedPrint,
            RuntimeErrorView::UnterminatedString { .. } => ErrorKind::UnterminatedString,
            RuntimeErrorView::MustLoadFile => ErrorKind::MustLoadFile,
            RuntimeErrorView::WithTip { error, .. } => error.kind(),
        }
    }

    /// The tips that decorate the error, outermost first.
    pub open spec fn tips(self) -> Seq<Seq<char>>
        decreases self,
    {
        match self {
            RuntimeErrorView::WithTip { error, tip } => seq![tip] + error.tips(),
            _ => Seq::empty(),
        }
    }
}

impl RuntimeError {
    /// This error decorated with `tip`.
    pub fn with_tip(self, tip: String) -> (decorated: RuntimeError)
        ensures
            decorated@ == (RuntimeErrorView::WithTip { error: Box::new(self@), tip: tip@ }),
    {
        RuntimeError::WithTip { error: Box::new(self), tip }
    }

    /// The kind of the error, looking through every tip.
    pub fn kind(&self) -> (kind: ErrorKind)
        ensures
            kind == self@.kind(),
        decreases self,
    {
        match self {
            RuntimeError::Uninitialised => ErrorKind::Uninitialised,
            RuntimeError::BadArgument { .. } => ErrorKind::BadArgument,
            RuntimeError::UnknownRegister { .. } => ErrorKind::UnknownRegister,
            RuntimeError::UnknownLabel { .. } => ErrorKind::UnknownLabel,
            RuntimeError::UninitialisedPrint { .. } => ErrorKind::UninitialisedPrint,
            RuntimeError::UnterminatedString { .. } => ErrorKind::UnterminatedString,
            RuntimeError::MustLoadFile => ErrorKind::MustLoadFile,
            RuntimeError::WithTip { error, .. } => error.kind(),
        }
    }

    /// The outermost tip, if the error carries one.
    pub fn tip(&self) -> (tip: Option<&String>)
        ensures
            match tip {
                Some(text) => self@.tips().len() > 0 && text@ == self@.tips()[0],
                None => self@.tips().len() == 0,
            },
    {
        match self {
            RuntimeError::WithTip { tip, .. } => Some(tip),
            _ => None,
        }
    }
}

impl MipsyError {
    /// Whether the error belongs to the compile phase.
    pub fn is_compile(&self) -> (compile: bool)
        ensures
            compile == (self@ is Compile),
    {
        match self {
            MipsyError::Compile(_) => true,
            MipsyError::Runtime(_) => false,
        }
    }

    /// Whether the error belongs to the run phase.
    pub fn is_runtime(&self) -> (runtime: bool)
        ensures
            runtime == (self@ is Runtime),
            runtime == !(self@ is Compile),
    {
        match self {
            MipsyError::Compile(_) => false,
            MipsyError::Runtime(_) => true,
        }
    }
}

/// A tip adds remedial text to an error and leaves its kind as it was.
pub proof fn lemma_tip_keeps_kind(error: RuntimeErrorView, tip: Seq<char>)
    ensures
        (RuntimeErrorView::WithTip { error: Box::new(error), tip }).kind() == error.kind(),
        (RuntimeErrorView::WithTip { error: Box::new(error), tip }).tips() == seq![tip]
            + error.tips(),
{
}

} // verus!
