//! The failures of the pipeline, how each is handled, and how each is
//! described to an operator.

use vstd::prelude::*;
use crate::address::{decimal_text, push_decimal};
use crate::frame::MalformedHeader;

verus! {

/// The classes of failure.
#[derive(Clone, Copy, Debug, PartialEq, Eq, Structural)]
pub enum ErrorKind {
    /// No interface carries the requested name.
    Resolution,
    /// The capture channel cannot be opened.
    Channel,
    /// Reading from the link failed.
    Capture,
    /// A frame ends before the header it announces.
    MalformedHeader,
    /// The broker did not take the message: timeout, lost connection, rejection.
    Publish,
}

/// What the pipeline does about a failure.
#[derive(Clone, Copy, Debug, PartialEq, Eq, Structural)]
pub enum Disposition {
    /// Stop: nothing can be done without the missing resource.
    Fatal,
    /// Log it, drop the frame and go on with the next one.
    Skip,
    /// Try again after a pause, a bounded number of times, then stop.
    Retry,
}

/// The handling of each class of failure.
pub open spec fn disposition_of(kind: ErrorKind) -> Disposition {
    match kind {
        ErrorKind::Resolution | ErrorKind::Channel => Disposition::Fatal,
        ErrorKind::MalformedHeader => Disposition::Skip,
        ErrorKind::Capture | ErrorKind::Publish => Disposition::Retry,
    }
}

impl ErrorKind {
    /// How a failure of this class is handled.
    pub fn disposition(self) -> (d: Disposition)
        ensures
            d == disposition_of(self),
    {
        match self {
            ErrorKind::Resolution => Disposition::Fatal,
            ErrorKind::Channel => Disposition::Fatal,
            ErrorKind::Capture => Disposition::Retry,
            ErrorKind::MalformedHeader => Disposition::Skip,
            ErrorKind::Publish => Disposition::Retry,
        }
    }
}

/// A failure with the operation that met it and its cause.
#[derive(Clone, Debug, PartialEq, Eq)]
pub enum PipelineError {
    /// No interface is named `name`.
    Resolution { name: String },
    /// No channel could be opened on `interface`.
    Channel { interface: String, cause: String },
    /// Reading a frame from `interface` failed.
    Capture { interface: String, cause: String },
    /// A frame could not be decoded.
    MalformedHeader(MalformedHeader),
    /// A message for `topic` was not acknowledged.
    Publish { topic: String, cause: String },
}

/// A `PipelineError` with its texts as sequences of characters.
pub enum PipelineErrorView {
    Resolution { name: Seq<char> },
    Channel { interface: Seq<char>, cause: Seq<char> },
    Capture { interface: Seq<char>, cause: Seq<char> },
    MalformedHeader(MalformedHeader),
    Publish { topic: Seq<char>, cause: Seq<char> },
}

impl View for PipelineError {
    type V = PipelineErrorView;

    open spec fn view(&self) -> PipelineErrorView {
        match self {
            PipelineError::Resolution { name } => PipelineErrorView::Resolution { name: name@ },
            PipelineError::Channel { interface, cause } => PipelineErrorView::Channel {
                interface: interface@,
                cause: cause@,
            },
            PipelineError::Capture { interface, cause } => PipelineErrorView::Capture {
                interface: interface@,
                cause: cause@,
            },
            PipelineError::MalformedHeader(m) => PipelineErrorView::MalformedHeader(*m),
            PipelineError::Publish { topic, cause } => PipelineErrorView::Publish {
                topic: topic@,
                cause: cause@,
            },
        }
    }
}

impl PipelineErrorView {
    /// The class of the failure.
    pub open spec fn kind(self) -> ErrorKind {
        match self {
            PipelineErrorView::Resolution { .. } => ErrorKind::Resolution,
            PipelineErrorView::Channel { .. } => ErrorKind::Channel,
            PipelineErrorView::Capture { .. } => ErrorKind::Capture,
            PipelineErrorView::MalformedHeader(_) => ErrorKind::MalformedHeader,
            PipelineErrorView::Publish { .. } => ErrorKind::Publish,
        }
    }

    /// The operation that failed, then its cause.
    pub open spec fn description(self) -> Seq<char> {
        match self {
            PipelineErrorView::Resolution { name } => "resolve interface: no interface named "@
                + name,
            PipelineErrorView::Channel { interface, cause } => "open channel on "@ + interface
                + ": "@ + cause,
            PipelineErrorView::Capture { interface, cause } => "capture on "@ + interface + ": "@
                + cause,
            PipelineErrorView::MalformedHeader(m) => "decode frame: header needs "@ + decimal_text(
                m.needed as nat,
            ) + " bytes, "@ + decimal_text(m.available as nat) + " captured"@,
            PipelineErrorView::Publish { topic, cause } => "publish to "@ + topic + ": "@ + cause,
        }
    }
}

impl PipelineError {
    /// The class of the failure.
    pub fn kind(&self) -> (k: ErrorKind)
        ensures
            k == self@.kind(),
    {
        match self {
            PipelineError::Resolution { .. } => ErrorKind::Resolution,
            PipelineError::Channel { .. } => ErrorKind::Channel,
            PipelineError::Capture { .. } => ErrorKind::Capture,
            PipelineError::MalformedHeader(_) => ErrorKind::MalformedHeader,
            PipelineError::Publish { .. } => ErrorKind::Publish,
        }
    }

    /// One line for the operator: the operation that failed, then its cause.
    pub fn describe(&self) -> (text: String)
        ensures
            text@ == self@.description(),
    {
        let mut text = String::new();
        match self {
            PipelineError::Resolution { name } => {
                text.append("resolve interface: no interface named ");
                text.append(name.as_str());
            },
            PipelineError::Channel { interface, cause } => {
                text.append("open channel on ");
                text.append(interface.as_str());
                text.append(": ");
                text.append(cause.as_str());
            },
            PipelineError::Capture { interface, cause } => {
                text.append("capture on ");
                text.append(interface.as_str());
                text.append(": ");
                text.append(cause.as_str());
            },
            PipelineError::MalformedHeader(m) => {
                text.append("decode frame: header needs ");
                push_decimal(&mut text, m.needed as u64);
                text.append(" bytes, ");
                push_decimal(&mut text, m.available as u64);
                text.append(" captured");
            },
            PipelineError::Publish { topic, cause } => {
                text.append("publish to ");
                text.append(topic.as_str());
                text.append(": ");
                text.append(cause.as_str());
            },
        }
        assert(text@ =~= self@.description());
        text
    }
}

} // verus!
