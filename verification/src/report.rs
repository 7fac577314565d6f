//! Result reporter: what a command that got to its end emits, and where.

use vstd::prelude::*;
use crate::collateral::{debug_rendering, export_chars, export_text, QuoteCollateralV3Json};
use crate::failure::{owned_text_view, step_view, Failure, FailureView};

verus! {

/// The line that `verify` writes to the diagnostic stream on success.
pub const CONFIRMATION: &'static str = "Quote verified";

/// What a successful command emits. Where there is a file, it is written
/// first, and a write that fails is not an error; then `stdout` goes to
/// standard output; then `diagnostic` goes to the diagnostic stream.
#[derive(Debug, Clone, PartialEq, Eq)]
pub struct Output {
    /// One line for standard output.
    pub stdout: String,
    /// One line for the diagnostic stream, if any.
    pub diagnostic: Option<String>,
    /// The text of the export file, if one is written.
    pub file: Option<String>,
}

/// An `Output` in specifications.
pub ghost struct OutputView {
    pub stdout: Seq<char>,
    pub diagnostic: Option<Seq<char>>,
    pub file: Option<Seq<char>>,
}

impl View for Output {
    type V = OutputView;

    open spec fn view(&self) -> OutputView {
        OutputView {
            stdout: self.stdout@,
            diagnostic: owned_text_view(self.diagnostic),
            file: owned_text_view(self.file),
        }
    }
}

/// How a command ended: with what it emits, or with the failure that
/// stopped it. A failed command emits nothing but its error.
pub type Outcome = Result<Output, Failure>;

/// An `Outcome` in specifications.
pub type OutcomeView = Result<OutputView, FailureView>;

/// `outcome` as specifications see it.
pub open spec fn outcome_view(outcome: Outcome) -> OutcomeView {
    match outcome {
        Ok(output) => Ok(output@),
        Err(failure) => Err(failure@),
    }
}

/// What `decode` emits for the JSON of a decoded quote: the JSON, on
/// standard output.
pub open spec fn decode_output(json: Seq<char>) -> OutputView {
    OutputView { stdout: json, diagnostic: None, file: None }
}

/// What `verify` emits for the JSON of a report: the JSON on standard
/// output, the confirmation on the diagnostic stream.
pub open spec fn verify_output(json: Seq<char>) -> OutputView {
    OutputView { stdout: json, diagnostic: Some(CONFIRMATION@), file: None }
}

/// What `collateral` emits for a rendering of the export record: the
/// rendering on standard output, and in the export file the rendering
/// without the record's name. A rendering too short for that is a failure.
pub open spec fn collateral_outcome(rendering: Seq<char>) -> OutcomeView {
    match export_chars(rendering) {
        Some(text) => Ok(OutputView { stdout: rendering, diagnostic: None, file: Some(text) }),
        None => Err(FailureView::Export),
    }
}

/// How `decode` ends, given the JSON of the decoded quote or the failure on
/// the way to it.
pub open spec fn decode_outcome(json: Result<Seq<char>, FailureView>) -> OutcomeView {
    match json {
        Ok(text) => Ok(decode_output(text)),
        Err(failure) => Err(failure),
    }
}

/// How `verify` ends, given the JSON of the report or the failure on the way
/// to it.
pub open spec fn verify_outcome(json: Result<Seq<char>, FailureView>) -> OutcomeView {
    match json {
        Ok(text) => Ok(verify_output(text)),
        Err(failure) => Err(failure),
    }
}

/// The exit status of an outcome: zero for success, one for any failure.
pub open spec fn exit_status_of(outcome: OutcomeView) -> int {
    if outcome is Ok {
        0
    } else {
        1
    }
}

/// Reports a decoded quote, or hands the failure on. Nothing is emitted for
/// a failure.
pub fn report_decoded(json: Result<String, Failure>) -> (outcome: Outcome)
    ensures
        outcome_view(outcome) == decode_outcome(step_view(json)),
{
    match json {
        Ok(text) => Ok(Output { stdout: text, diagnostic: None, file: None }),
        Err(failure) => Err(failure),
    }
}

/// Reports a verification, or hands the failure on. The confirmation is
/// emitted only together with the report.
pub fn report_verified(json: Result<String, Failure>) -> (outcome: Outcome)
    ensures
        outcome_view(outcome) == verify_outcome(step_view(json)),
{
    match json {
        Ok(text) => Ok(
            Output { stdout: text, diagnostic: Some(CONFIRMATION.to_owned()), file: None },
        ),
        Err(failure) => Err(failure),
    }
}

/// Reports a rendering of the export record: the rendering itself for
/// standard output, and the rendering without the record's name for the
/// export file.
pub fn report_rendering(rendering: String) -> (outcome: Outcome)
    ensures
        outcome_view(outcome) == collateral_outcome(rendering@),
{
    match export_text(rendering.as_str()) {
        Some(text) => Ok(Output { stdout: rendering, diagnostic: None, file: Some(text) }),
        None => Err(Failure::Export),
    }
}

/// Reports the export record of a collateral.
pub fn report_collateral(record: &QuoteCollateralV3Json) -> (outcome: Outcome)
    ensures
        outcome_view(outcome) == collateral_outcome(debug_rendering(record@)),
{
    report_rendering(record.rendering())
}

/// The status that the process exits with.
pub fn exit_status(outcome: &Outcome) -> (status: i32)
    ensures
        status == exit_status_of(outcome_view(*outcome)),
        status == 0 <==> *outcome is Ok,
{
    match outcome {
        Ok(_) => 0,
        Err(_) => 1,
    }
}

} // verus!
