//! Everything that can stop an execution, and the wording shown for it.

use vstd::prelude::*;
use vstd::string::*;
use crate::trace::TraceStatus;

verus! {

/// Why an execution stopped.
#[derive(Debug)]
pub enum Failure {
    /// The task or its engine specification is missing or unusable.
    Config(String),
    /// A conversation, message, document or trace that was asked for is absent.
    /// Holds the name of what was looked for.
    NotFound(String),
    /// A record of the conversation store does not have the shape it must have.
    Store(String),
    /// A message carries neither or both of inline text and a document
    /// reference. Holds the message id.
    MalformedMessage(String),
    /// A memory reference names a memory system other than the supported one.
    UnsupportedMemorySystem,
    /// A trace with this id is already there.
    AlreadyExists(String),
    /// A status change that the trace state machine does not have.
    IllegalTransition { from: TraceStatus, to: TraceStatus },
    /// The engine's binary or model is absent.
    ResourceNotFound(String),
    /// The engine ran and failed. Holds its diagnostic output.
    Engine(String),
    /// The response cites nothing.
    NoCitations,
    /// The response cites a message id that is not among the material.
    UnknownCitation(String),
    /// The executor was handed an event that does not answer its last request.
    UnexpectedEvent,
}

/// A `Failure` with its texts as character sequences.
pub enum FailureView {
    Config(Seq<char>),
    NotFound(Seq<char>),
    Store(Seq<char>),
    MalformedMessage(Seq<char>),
    UnsupportedMemorySystem,
    AlreadyExists(Seq<char>),
    IllegalTransition { from: TraceStatus, to: TraceStatus },
    ResourceNotFound(Seq<char>),
    Engine(Seq<char>),
    NoCitations,
    UnknownCitation(Seq<char>),
    UnexpectedEvent,
}

impl View for Failure {
    type V = FailureView;

    open spec fn view(&self) -> FailureView {
        match self {
            Failure::Config(s) => FailureView::Config(s@),
            Failure::NotFound(s) => FailureView::NotFound(s@),
            Failure::Store(s) => FailureView::Store(s@),
            Failure::MalformedMessage(s) => FailureView::MalformedMessage(s@),
            Failure::UnsupportedMemorySystem => FailureView::UnsupportedMemorySystem,
            Failure::AlreadyExists(s) => FailureView::AlreadyExists(s@),
            Failure::IllegalTransition { from, to } => FailureView::IllegalTransition {
                from: *from,
                to: *to,
            },
            Failure::ResourceNotFound(s) => FailureView::ResourceNotFound(s@),
            Failure::Engine(s) => FailureView::Engine(s@),
            Failure::NoCitations => FailureView::NoCitations,
            Failure::UnknownCitation(s) => FailureView::UnknownCitation(s@),
            Failure::UnexpectedEvent => FailureView::UnexpectedEvent,
        }
    }
}

impl FailureView {
    /// Whether this is one of the two grounding violations.
    pub open spec fn is_grounding_violation(self) -> bool {
        self is NoCitations || self is UnknownCitation
    }

    /// The human-readable message.
    pub open spec fn message(self) -> Seq<char> {
        match self {
            FailureView::Config(s) => s,
            FailureView::NotFound(s) => "not found: "@ + s,
            FailureView::Store(s) => s,
            FailureView::MalformedMessage(id) => "invalid content in message "@ + id
                + " (must have exactly one of text|markdown)"@,
            FailureView::UnsupportedMemorySystem => "unsupported memory system"@,
            FailureView::AlreadyExists(id) => "trace already exists: "@ + id,
            FailureView::IllegalTransition { from, to } => "illegal state transition "@
                + from.spec_label() + " → "@ + to.spec_label(),
            FailureView::ResourceNotFound(s) => s,
            FailureView::Engine(s) => s,
            FailureView::NoCitations => "model produced no material citations"@,
            FailureView::UnknownCitation(id) => "invalid citation: FUR:"@ + id
                + " (not in material ledger)"@,
            FailureView::UnexpectedEvent => "event does not answer the pending request"@,
        }
    }
}

impl Failure {
    /// Whether this is one of the two grounding violations.
    pub fn is_grounding_violation(&self) -> (b: bool)
        ensures
            b == self@.is_grounding_violation(),
    {
        match self {
            Failure::NoCitations => true,
            Failure::UnknownCitation(_) => true,
            _ => false,
        }
    }

    /// The human-readable message.
    pub fn message(&self) -> (out: String)
        ensures
            out@ == self@.message(),
    {
        match self {
            Failure::Config(s) => s.clone(),
            Failure::NotFound(s) => String::from_str("not found: ").concat(s.as_str()),
            Failure::Store(s) => s.clone(),
            Failure::MalformedMessage(id) => String::from_str("invalid content in message ").concat(
                id.as_str(),
            ).concat(" (must have exactly one of text|markdown)"),
            Failure::UnsupportedMemorySystem => String::from_str("unsupported memory system"),
            Failure::AlreadyExists(id) => String::from_str("trace already exists: ").concat(
                id.as_str(),
            ),
            Failure::IllegalTransition { from, to } => String::from_str(
                "illegal state transition ",
            ).concat(from.label().as_str()).concat(" → ").concat(to.label().as_str()),
            Failure::ResourceNotFound(s) => s.clone(),
            Failure::Engine(s) => s.clone(),
            Failure::NoCitations => String::from_str("model produced no material citations"),
            Failure::UnknownCitation(id) => String::from_str("invalid citation: FUR:").concat(
                id.as_str(),
            ).concat(" (not in material ledger)"),
            Failure::UnexpectedEvent => String::from_str(
                "event does not answer the pending request",
            ),
        }
    }
}

impl Clone for Failure {
    fn clone(&self) -> (out: Failure)
        ensures
            out@ == self@,
    {
        match self {
            Failure::Config(s) => Failure::Config(s.clone()),
            Failure::NotFound(s) => Failure::NotFound(s.clone()),
            Failure::Store(s) => Failure::Store(s.clone()),
            Failure::MalformedMessage(s) => Failure::MalformedMessage(s.clone()),
            Failure::UnsupportedMemorySystem => Failure::UnsupportedMemorySystem,
            Failure::AlreadyExists(s) => Failure::AlreadyExists(s.clone()),
            Failure::IllegalTransition { from, to } => Failure::IllegalTransition {
                from: *from,
                to: *to,
            },
            Failure::ResourceNotFound(s) => Failure::ResourceNotFound(s.clone()),
            Failure::Engine(s) => Failure::Engine(s.clone()),
            Failure::NoCitations => Failure::NoCitations,
            Failure::UnknownCitation(s) => Failure::UnknownCitation(s.clone()),
            Failure::UnexpectedEvent => Failure::UnexpectedEvent,
        }
    }
}

/// A bare success or failure, with the failure as its view.
pub open spec fn unit_view(r: Result<(), Failure>) -> Result<(), FailureView> {
    match r {
        Ok(()) => Ok(()),
        Err(e) => Err(e@),
    }
}

/// A text or failure, each as its view.
pub open spec fn response_view(r: Result<String, Failure>) -> Result<Seq<char>, FailureView> {
    match r {
        Ok(s) => Ok(s@),
        Err(e) => Err(e@),
    }
}

} // verus!
