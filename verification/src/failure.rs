//! The ways in which a command fails, one per step that can fail.

use vstd::prelude::*;
use crate::normalize::{decode_error_message, DecodeError};

verus! {

/// Why a command stopped. A failure ends the command at the step that
/// raised it; no later step runs and nothing is reported.
#[derive(Debug, Clone, PartialEq, Eq)]
pub enum Failure {
    /// The quote file could not be read; the text is the system's message.
    Read(String),
    /// The quote file was marked as hex and is not well-formed hex.
    Decode(DecodeError),
    /// The bytes are not a quote; the text is the parser's message.
    Parse(String),
    /// A result could not be written as JSON; the text is the encoder's
    /// message.
    Serialize(String),
    /// Collateral could not be fetched: the network failed, the time ran
    /// out, or the answer was unusable. The text says which.
    Retrieval(String),
    /// The current time could not be read; the text is the system's message.
    Clock(String),
    /// Verification gave no report.
    Verify,
    /// The rendering of the export record cannot be cut after the record's
    /// name, so there is nothing to write to the export file.
    Export,
    /// The dispatcher was handed an event that does not answer the action
    /// it last asked for.
    OutOfTurn,
}

/// A `Failure` in specifications.
pub ghost enum FailureView {
    Read(Seq<char>),
    Decode(DecodeError),
    Parse(Seq<char>),
    Serialize(Seq<char>),
    Retrieval(Seq<char>),
    Clock(Seq<char>),
    Verify,
    Export,
    OutOfTurn,
}

impl View for Failure {
    type V = FailureView;

    open spec fn view(&self) -> FailureView {
        match self {
            Failure::Read(cause) => FailureView::Read(cause@),
            Failure::Decode(e) => FailureView::Decode(*e),
            Failure::Parse(cause) => FailureView::Parse(cause@),
            Failure::Serialize(cause) => FailureView::Serialize(cause@),
            Failure::Retrieval(cause) => FailureView::Retrieval(cause@),
            Failure::Clock(cause) => FailureView::Clock(cause@),
            Failure::Verify => FailureView::Verify,
            Failure::Export => FailureView::Export,
            Failure::OutOfTurn => FailureView::OutOfTurn,
        }
    }
}

/// The phrase that names the step at which `failure` arose, for the steps
/// that have one.
pub open spec fn step_phrase(failure: FailureView) -> Option<Seq<char>> {
    match failure {
        FailureView::Read(_) => Some("Failed to read quote file"@),
        FailureView::Decode(_) => Some("Failed to decode quote file"@),
        FailureView::Parse(_) => Some("Failed to parse quote"@),
        FailureView::Serialize(_) => Some("Failed to serialize quote"@),
        FailureView::Verify => Some("Failed to verify quote"@),
        FailureView::Export => Some("Failed to export collateral"@),
        FailureView::OutOfTurn => Some("Unexpected event"@),
        FailureView::Retrieval(_) => None,
        FailureView::Clock(_) => None,
    }
}

/// The message of the cause below the step, where there is one.
pub open spec fn cause_text(failure: FailureView) -> Option<Seq<char>> {
    match failure {
        FailureView::Read(cause) => Some(cause),
        FailureView::Parse(cause) => Some(cause),
        FailureView::Serialize(cause) => Some(cause),
        FailureView::Retrieval(cause) => Some(cause),
        FailureView::Clock(cause) => Some(cause),
        FailureView::Decode(e) => Some(decode_error_message(e)),
        FailureView::Verify => None,
        FailureView::Export => None,
        FailureView::OutOfTurn => None,
    }
}

/// `text` as specifications see it.
pub open spec fn text_view(text: Option<&str>) -> Option<Seq<char>> {
    match text {
        None => None,
        Some(s) => Some(s@),
    }
}

/// An optional owned text as specifications see it.
pub open spec fn owned_text_view(text: Option<String>) -> Option<Seq<char>> {
    match text {
        None => None,
        Some(s) => Some(s@),
    }
}

/// A text, or the message that says why there is none, as specifications
/// see it.
pub open spec fn text_or_message(r: Result<String, String>) -> Result<Seq<char>, Seq<char>> {
    match r {
        Ok(text) => Ok(text@),
        Err(message) => Err(message@),
    }
}

/// The result of a step that gives text, as specifications see it.
pub open spec fn step_view(r: Result<String, Failure>) -> Result<Seq<char>, FailureView> {
    match r {
        Ok(text) => Ok(text@),
        Err(failure) => Err(failure@),
    }
}

impl Failure {
    /// The context phrase of the failing step. Retrieval and clock failures
    /// have none: their cause speaks for itself.
    pub fn phrase(&self) -> (phrase: Option<&'static str>)
        ensures
            text_view(phrase) == step_phrase(self@),
    {
        match self {
            Failure::Read(_) => Some("Failed to read quote file"),
            Failure::Decode(_) => Some("Failed to decode quote file"),
            Failure::Parse(_) => Some("Failed to parse quote"),
            Failure::Serialize(_) => Some("Failed to serialize quote"),
            Failure::Verify => Some("Failed to verify quote"),
            Failure::Export => Some("Failed to export collateral"),
            Failure::OutOfTurn => Some("Unexpected event"),
            Failure::Retrieval(_) => None,
            Failure::Clock(_) => None,
        }
    }

    /// The cause's own message. Verification gives none: whatever the
    /// verifier objected to, the failure is the same.
    pub fn cause(&self) -> (cause: Option<String>)
        ensures
            owned_text_view(cause) == cause_text(self@),
    {
        match self {
            Failure::Read(cause) => Some(cause.clone()),
            Failure::Parse(cause) => Some(cause.clone()),
            Failure::Serialize(cause) => Some(cause.clone()),
            Failure::Retrieval(cause) => Some(cause.clone()),
            Failure::Clock(cause) => Some(cause.clone()),
            Failure::Decode(e) => Some(e.message()),
            Failure::Verify => None,
            Failure::Export => None,
            Failure::OutOfTurn => None,
        }
    }
}

} // verus!
