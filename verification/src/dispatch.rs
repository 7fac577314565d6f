//! Command dispatcher: the order of the steps of each command.
//!
//! A command reads the quote file, normalizes it, and then either decodes
//! the quote, or fetches collateral and exports it, or fetches collateral,
//! reads the clock and verifies. Reading, fetching and the clock are the
//! caller's work: the dispatcher says which of them is due, takes what came
//! of it, and says what is due next. A failure at any step ends the command
//! there.

use vstd::prelude::*;
use crate::collateral::{debug_rendering, exported, Collateral, CollateralView, QuoteCollateralV3Json};
use crate::failure::{cause_text, step_phrase, Failure, FailureView};
use crate::normalize::{framed, hex_decode, hex_digits, normalize, theorem_hex_round_trip};
use crate::quote::{decode_quote, decoded_json};
use crate::report::{
    collateral_outcome,
    decode_outcome,
    decode_output,
    exit_status_of,
    outcome_view,
    report_collateral,
    report_decoded,
    report_verified,
    verify_outcome,
    verify_output,
    Outcome,
    OutcomeView,
    OutputView,
};
use crate::retrieval::{
    request_for,
    retrieval_request,
    status_text,
    CollateralSource,
    RequestView,
    RetrievalRequest,
    SourceView,
};
use crate::verify::{verified_json, verify_quote};

verus! {

/// The three commands.
#[derive(Debug, Clone, Copy, PartialEq, Eq, Structural)]
pub enum Command {
    /// Print the decoded quote.
    Decode,
    /// Verify the quote and print the report.
    Verify,
    /// Fetch the quote's collateral, print it and export it.
    Collateral,
}

/// The phrase put in front of whatever made `command` fail.
pub open spec fn failure_phrase_of(command: Command) -> Seq<char> {
    match command {
        Command::Decode => "Failed to decode quote"@,
        Command::Verify => "Failed to verify quote"@,
        Command::Collateral => "Failed to decode quote"@,
    }
}

impl Command {
    /// The outermost context phrase of a failure of this command.
    pub fn failure_phrase(&self) -> (phrase: &'static str)
        ensures
            phrase@ == failure_phrase_of(*self),
    {
        match self {
            Command::Decode => "Failed to decode quote",
            Command::Verify => "Failed to verify quote",
            Command::Collateral => "Failed to decode quote",
        }
    }
}

/// The texts of `lines`.
pub open spec fn texts(lines: Seq<String>) -> Seq<Seq<char>> {
    Seq::new(lines.len(), |i: int| lines[i]@)
}

/// `text` as a line of its own, if there is one.
pub open spec fn optional_line(text: Option<Seq<char>>) -> Seq<Seq<char>> {
    match text {
        Some(t) => seq![t],
        None => Seq::<Seq<char>>::empty(),
    }
}

/// What is said of a failed command, outermost first: the command's
/// phrase, then the phrase of the step that failed, then the cause's own
/// message, the last two where there is one.
pub open spec fn context_chain_of(command: Command, failure: FailureView) -> Seq<Seq<char>> {
    seq![failure_phrase_of(command)] + optional_line(step_phrase(failure)) + optional_line(
        cause_text(failure),
    )
}

/// The chain of context that the process prints before it exits with a
/// failure, outermost first. No cause is left out.
pub fn context_chain(command: Command, failure: &Failure) -> (chain: Vec<String>)
    ensures
        texts(chain@) == context_chain_of(command, failure@),
{
    let mut chain: Vec<String> = Vec::new();
    chain.push(command.failure_phrase().to_owned());
    assert(texts(chain@) =~= seq![failure_phrase_of(command)]);
    match failure.phrase() {
        Some(phrase) => {
            let ghost before = chain@;
            chain.push(phrase.to_owned());
            assert(texts(chain@) =~= texts(before) + seq![phrase@]);
        },
        None => {},
    }
    match failure.cause() {
        Some(cause) => {
            let ghost before = chain@;
            chain.push(cause);
            assert(texts(chain@) =~= texts(before) + seq![cause@]);
        },
        None => {},
    }
    chain
}

/// What the dispatcher is waiting for.
#[derive(Debug, Clone, PartialEq, Eq)]
pub enum Stage {
    /// The content of the quote file.
    ReadingQuote,
    /// The collateral for `quote`.
    Retrieving { quote: Vec<u8> },
    /// The current time, to verify `quote` against `collateral`.
    ReadingClock { quote: Vec<u8>, collateral: Collateral },
    /// Nothing: the command has ended.
    Finished,
}

/// A `Stage` in specifications.
pub ghost enum StageView {
    ReadingQuote,
    Retrieving { quote: Seq<u8> },
    ReadingClock { quote: Seq<u8>, collateral: CollateralView },
    Finished,
}

impl View for Stage {
    type V = StageView;

    open spec fn view(&self) -> StageView {
        match self {
            Stage::ReadingQuote => StageView::ReadingQuote,
            Stage::Retrieving { quote } => StageView::Retrieving { quote: quote@ },
            Stage::ReadingClock { quote, collateral } => StageView::ReadingClock {
                quote: quote@,
                collateral: collateral@,
            },
            Stage::Finished => StageView::Finished,
        }
    }
}

/// What came of the caller's work. A failed attempt carries the cause's
/// message.
#[derive(Debug, PartialEq, Eq)]
pub enum Event {
    /// The quote file was read, or could not be.
    QuoteRead(Result<Vec<u8>, String>),
    /// The collateral arrived, or the retrieval failed or ran out of time.
    CollateralRetrieved(Result<Collateral, String>),
    /// The clock was read, in Unix seconds, or could not be.
    ClockRead(Result<u64, String>),
}

/// An `Event` in specifications.
pub ghost enum EventView {
    QuoteRead(Result<Seq<u8>, Seq<char>>),
    CollateralRetrieved(Result<CollateralView, Seq<char>>),
    ClockRead(Result<u64, Seq<char>>),
}

impl View for Event {
    type V = EventView;

    open spec fn view(&self) -> EventView {
        match self {
            Event::QuoteRead(Ok(content)) => EventView::QuoteRead(Ok(content@)),
            Event::QuoteRead(Err(cause)) => EventView::QuoteRead(Err(cause@)),
            Event::CollateralRetrieved(Ok(collateral)) => EventView::CollateralRetrieved(
                Ok(collateral@),
            ),
            Event::CollateralRetrieved(Err(cause)) => EventView::CollateralRetrieved(Err(cause@)),
            Event::ClockRead(Ok(now)) => EventView::ClockRead(Ok(*now)),
            Event::ClockRead(Err(cause)) => EventView::ClockRead(Err(cause@)),
        }
    }
}

/// What the caller does next.
#[derive(Debug, PartialEq, Eq)]
pub enum Action {
    /// Read the quote file fully into memory.
    ReadQuote,
    /// Write the request's status line to the diagnostic stream, then fetch
    /// the collateral as the request says.
    Retrieve(RetrievalRequest),
    /// Read the clock.
    ReadClock,
    /// Emit the outcome and exit.
    Finish(Outcome),
}

/// An `Action` in specifications.
pub ghost enum ActionView {
    ReadQuote,
    Retrieve(RequestView),
    ReadClock,
    Finish(OutcomeView),
}

impl View for Action {
    type V = ActionView;

    open spec fn view(&self) -> ActionView {
        match self {
            Action::ReadQuote => ActionView::ReadQuote,
            Action::Retrieve(request) => ActionView::Retrieve(request@),
            Action::ReadClock => ActionView::ReadClock,
            Action::Finish(outcome) => ActionView::Finish(outcome_view(*outcome)),
        }
    }
}

/// One command in progress.
#[derive(Debug)]
pub struct Dispatcher {
    command: Command,
    is_hex: bool,
    source: CollateralSource,
    stage: Stage,
}

/// A `Dispatcher` in specifications.
pub ghost struct DispatcherView {
    pub command: Command,
    pub is_hex: bool,
    pub source: SourceView,
    pub stage: StageView,
}

/// Only `verify` and `collateral` fetch collateral, and only `verify` reads
/// the clock.
pub open spec fn well_formed(d: DispatcherView) -> bool {
    match d.stage {
        StageView::ReadingQuote => true,
        StageView::Retrieving { .. } => d.command != Command::Decode,
        StageView::ReadingClock { .. } => d.command == Command::Verify,
        StageView::Finished => true,
    }
}

/// The command has ended, with `outcome`.
pub open spec fn finish(outcome: OutcomeView) -> (StageView, ActionView) {
    (StageView::Finished, ActionView::Finish(outcome))
}

/// The step after the quote file was read: normalize the content; then
/// `decode` decodes and reports, the other two ask for collateral.
pub open spec fn after_read(d: DispatcherView, read: Result<Seq<u8>, Seq<char>>) -> (
    StageView,
    ActionView,
) {
    match read {
        Err(cause) => finish(Err(FailureView::Read(cause))),
        Ok(content) => match normalize(content, d.is_hex) {
            Err(e) => finish(Err(FailureView::Decode(e))),
            Ok(quote) => match d.command {
                Command::Decode => finish(decode_outcome(decoded_json(quote))),
                _ => (
                    StageView::Retrieving { quote },
                    ActionView::Retrieve(request_for(quote, d.source)),
                ),
            },
        },
    }
}

/// The step after the retrieval: `verify` goes on to read the clock,
/// `collateral` exports what arrived.
pub open spec fn after_retrieval(
    command: Command,
    quote: Seq<u8>,
    retrieved: Result<CollateralView, Seq<char>>,
) -> (StageView, ActionView) {
    match retrieved {
        Err(cause) => finish(Err(FailureView::Retrieval(cause))),
        Ok(collateral) => match command {
            Command::Verify => (StageView::ReadingClock { quote, collateral }, ActionView::ReadClock),
            _ => finish(collateral_outcome(debug_rendering(exported(collateral)))),
        },
    }
}

/// The step after the clock was read: verify at that time, and report.
pub open spec fn after_clock(
    quote: Seq<u8>,
    collateral: CollateralView,
    clock: Result<u64, Seq<char>>,
) -> (StageView, ActionView) {
    match clock {
        Err(cause) => finish(Err(FailureView::Clock(cause))),
        Ok(now) => finish(verify_outcome(verified_json(quote, collateral, now))),
    }
}

/// The stage and the action that follow when `event` arrives at `d`. An
/// event that does not answer what `d` is waiting for ends the command.
pub open spec fn next(d: DispatcherView, event: EventView) -> (StageView, ActionView) {
    match (d.stage, event) {
        (StageView::ReadingQuote, EventView::QuoteRead(read)) => after_read(d, read),
        (StageView::Retrieving { quote }, EventView::CollateralRetrieved(retrieved)) => {
            after_retrieval(d.command, quote, retrieved)
        },
        (StageView::ReadingClock { quote, collateral }, EventView::ClockRead(clock)) => {
            after_clock(quote, collateral, clock)
        },
        _ => finish(Err(FailureView::OutOfTurn)),
    }
}

impl View for Dispatcher {
    type V = DispatcherView;

    closed spec fn view(&self) -> DispatcherView {
        DispatcherView {
            command: self.command,
            is_hex: self.is_hex,
            source: self.source@,
            stage: self.stage@,
        }
    }
}

impl Dispatcher {
    #[verifier::type_invariant]
    spec fn inv(self) -> bool {
        well_formed(self@)
    }

    /// Begins a command on a quote file whose content is hex text if
    /// `is_hex`, with the collateral source resolved beforehand. The first
    /// thing due is to read the file.
    pub fn start(command: Command, is_hex: bool, source: CollateralSource) -> (r: (
        Dispatcher,
        Action,
    ))
        ensures
            r.0@ == (DispatcherView {
                command,
                is_hex,
                source: source@,
                stage: StageView::ReadingQuote,
            }),
            r.1@ == ActionView::ReadQuote,
    {
        (Dispatcher { command, is_hex, source, stage: Stage::ReadingQuote }, Action::ReadQuote)
    }

    /// The command.
    pub fn command(&self) -> (command: Command)
        ensures
            command == self@.command,
    {
        self.command
    }

    /// Whether the command has ended.
    pub fn is_finished(&self) -> (finished: bool)
        ensures
            finished == (self@.stage is Finished),
    {
        match self.stage {
            Stage::Finished => true,
            _ => false,
        }
    }

    /// Takes what came of the action last asked for and says what is due
    /// next. The command, the hex flag and the source never change.
    pub fn step(self, event: Event) -> (r: (Dispatcher, Action))
        ensures
            well_formed(self@),
            well_formed(r.0@),
            r.0@.command == self@.command,
            r.0@.is_hex == self@.is_hex,
            r.0@.source == self@.source,
            (r.0@.stage, r.1@) == next(self@, event@),
    {
        proof {
            use_type_invariant(&self);
        }
        let Dispatcher { command, is_hex, source, stage } = self;
        match stage {
            Stage::ReadingQuote => match event {
                Event::QuoteRead(Err(cause)) => Self::end(
                    command,
                    is_hex,
                    source,
                    Err(Failure::Read(cause)),
                ),
                Event::QuoteRead(Ok(content)) => match hex_decode(content.as_slice(), is_hex) {
                    Err(e) => Self::end(command, is_hex, source, Err(Failure::Decode(e))),
                    Ok(quote) => match command {
                        Command::Decode => {
                            let outcome = report_decoded(decode_quote(quote.as_slice()));
                            Self::end(command, is_hex, source, outcome)
                        },
                        _ => {
                            let request = retrieval_request(quote.clone(), source.clone());
                            (
                                Dispatcher {
                                    command,
                                    is_hex,
                                    source,
                                    stage: Stage::Retrieving { quote },
                                },
                                Action::Retrieve(request),
                            )
                        },
                    },
                },
                _ => Self::end(command, is_hex, source, Err(Failure::OutOfTurn)),
            },
            Stage::Retrieving { quote } => match event {
                Event::CollateralRetrieved(Err(cause)) => Self::end(
                    command,
                    is_hex,
                    source,
                    Err(Failure::Retrieval(cause)),
                ),
                Event::CollateralRetrieved(Ok(collateral)) => match command {
                    Command::Verify => (
                        Dispatcher {
                            command,
                            is_hex,
                            source,
                            stage: Stage::ReadingClock { quote, collateral },
                        },
                        Action::ReadClock,
                    ),
                    _ => {
                        let record = QuoteCollateralV3Json::from_collateral(collateral);
                        Self::end(command, is_hex, source, report_collateral(&record))
                    },
                },
                _ => Self::end(command, is_hex, source, Err(Failure::OutOfTurn)),
            },
            Stage::ReadingClock { quote, collateral } => match event {
                Event::ClockRead(Err(cause)) => Self::end(
                    command,
                    is_hex,
                    source,
                    Err(Failure::Clock(cause)),
                ),
                Event::ClockRead(Ok(now)) => {
                    let json = verify_quote(quote.as_slice(), &collateral, now);
                    Self::end(command, is_hex, source, report_verified(json))
                },
                _ => Self::end(command, is_hex, source, Err(Failure::OutOfTurn)),
            },
            Stage::Finished => Self::end(command, is_hex, source, Err(Failure::OutOfTurn)),
        }
    }

    /// Ends the command with `outcome`.
    fn end(command: Command, is_hex: bool, source: CollateralSource, outcome: Outcome) -> (r: (
        Dispatcher,
        Action,
    ))
        ensures
            r.0@ == (DispatcherView {
                command,
                is_hex,
                source: source@,
                stage: StageView::Finished,
            }),
            r.1@ == ActionView::Finish(outcome_view(outcome)),
    {
        (Dispatcher { command, is_hex, source, stage: Stage::Finished }, Action::Finish(outcome))
    }
}

/// How a command ends when every event answers the action before it: the
/// file is read, then, where the dispatcher asks for them, the collateral
/// is fetched and the clock is read.
pub open spec fn run(
    command: Command,
    is_hex: bool,
    source: SourceView,
    read: Result<Seq<u8>, Seq<char>>,
    retrieved: Result<CollateralView, Seq<char>>,
    clock: Result<u64, Seq<char>>,
) -> OutcomeView {
    let (stage1, action1) = next(
        DispatcherView { command, is_hex, source, stage: StageView::ReadingQuote },
        EventView::QuoteRead(read),
    );
    match action1 {
        ActionView::Finish(outcome) => outcome,
        _ => {
            let (stage2, action2) = next(
                DispatcherView { command, is_hex, source, stage: stage1 },
                EventView::CollateralRetrieved(retrieved),
            );
            match action2 {
                ActionView::Finish(outcome) => outcome,
                _ => match next(
                    DispatcherView { command, is_hex, source, stage: stage2 },
                    EventView::ClockRead(clock),
                ).1 {
                    ActionView::Finish(outcome) => outcome,
                    _ => Err(FailureView::OutOfTurn),
                },
            }
        },
    }
}

/// The outcome of a command, step by step: each step runs only if every
/// step before it succeeded, and the first failure is the outcome.
pub open spec fn command_outcome(
    command: Command,
    is_hex: bool,
    read: Result<Seq<u8>, Seq<char>>,
    retrieved: Result<CollateralView, Seq<char>>,
    clock: Result<u64, Seq<char>>,
) -> OutcomeView {
    match read {
        Err(cause) => Err(FailureView::Read(cause)),
        Ok(content) => match normalize(content, is_hex) {
            Err(e) => Err(FailureView::Decode(e)),
            Ok(quote) => match command {
                Command::Decode => decode_outcome(decoded_json(quote)),
                Command::Collateral => match retrieved {
                    Err(cause) => Err(FailureView::Retrieval(cause)),
                    Ok(collateral) => collateral_outcome(debug_rendering(exported(collateral))),
                },
                Command::Verify => match retrieved {
                    Err(cause) => Err(FailureView::Retrieval(cause)),
                    Ok(collateral) => match clock {
                        Err(cause) => Err(FailureView::Clock(cause)),
                        Ok(now) => verify_outcome(verified_json(quote, collateral, now)),
                    },
                },
            },
        },
    }
}

/// A command ends exactly when the dispatcher says so: an action that
/// finishes leaves the dispatcher finished, every other action leaves it
/// waiting, and a finished dispatcher takes no further step. Steps keep the
/// dispatcher well-formed.
pub proof fn theorem_finish_is_final(d: DispatcherView, event: EventView)
    requires
        well_formed(d),
    ensures
        next(d, event).1 is Finish <==> next(d, event).0 is Finished,
        d.stage is Finished ==> next(d, event) == finish(Err(FailureView::OutOfTurn)),
        well_formed(
            DispatcherView {
                command: d.command,
                is_hex: d.is_hex,
                source: d.source,
                stage: next(d, event).0,
            },
        ),
{
}

/// Every retrieval that the dispatcher asks for goes to the source chosen
/// at the start, is announced by that source's status line, and has sixty
/// seconds, whichever source it is.
pub proof fn theorem_retrieval_is_bounded(d: DispatcherView, event: EventView)
    ensures
        next(d, event).1 matches ActionView::Retrieve(request) ==> request.timeout_secs == 60
            && request.source == d.source && request.status_line == status_text(d.source)
            && next(d, event).0 == (StageView::Retrieving { quote: request.quote }),
{
}

/// A retrieval that fails, for whatever reason, ends `verify` and
/// `collateral` alike with a retrieval failure: nothing is emitted and the
/// exit status is not zero.
pub proof fn theorem_retrieval_failure_is_final(d: DispatcherView, cause: Seq<char>)
    requires
        d.stage is Retrieving,
    ensures
        next(d, EventView::CollateralRetrieved(Err(cause))) == finish(
            Err(FailureView::Retrieval(cause)),
        ),
        exit_status_of(Err(FailureView::Retrieval(cause))) != 0,
{
}

/// Run from start to end, a command's outcome is that of its steps in
/// order, cut short by the first failure.
pub proof fn theorem_run_is_sequential(
    command: Command,
    is_hex: bool,
    source: SourceView,
    read: Result<Seq<u8>, Seq<char>>,
    retrieved: Result<CollateralView, Seq<char>>,
    clock: Result<u64, Seq<char>>,
)
    ensures
        run(command, is_hex, source, read, retrieved, clock) == command_outcome(
            command,
            is_hex,
            read,
            retrieved,
            clock,
        ),
{
}

/// Where retrieval fails, `verify` and `collateral` fail, whatever the file
/// held and whatever the clock says.
pub proof fn theorem_no_report_without_collateral(
    command: Command,
    is_hex: bool,
    source: SourceView,
    read: Result<Seq<u8>, Seq<char>>,
    cause: Seq<char>,
    clock: Result<u64, Seq<char>>,
)
    requires
        command != Command::Decode,
    ensures
        run(command, is_hex, source, read, Err(cause), clock) is Err,
        exit_status_of(run(command, is_hex, source, read, Err(cause), clock)) == 1,
{
}

/// Where the file holds a quote, the collateral arrives, the clock is read
/// and the verifier reports, `verify` emits the report's JSON on standard
/// output and the confirmation on the diagnostic stream, and exits with
/// zero.
pub proof fn theorem_verified_quote_is_reported(
    source: SourceView,
    quote: Seq<u8>,
    collateral: CollateralView,
    now: u64,
    json: Seq<char>,
)
    requires
        verified_json(quote, collateral, now) == Ok::<Seq<char>, FailureView>(json),
    ensures
        run(Command::Verify, false, source, Ok(quote), Ok(collateral), Ok(now)) == Ok::<
            OutputView,
            FailureView,
        >(verify_output(json)),
        verify_output(json) == (OutputView {
            stdout: json,
            diagnostic: Some("Quote verified"@),
            file: None,
        }),
        exit_status_of(
            run(Command::Verify, false, source, Ok(quote), Ok(collateral), Ok(now)),
        ) == 0,
{
}

/// Where the file holds a quote that the parser accepts, `decode` emits the
/// JSON of the decoded quote on standard output and nothing else.
pub proof fn theorem_decoded_quote_is_printed(
    source: SourceView,
    quote: Seq<u8>,
    json: Seq<char>,
    retrieved: Result<CollateralView, Seq<char>>,
    clock: Result<u64, Seq<char>>,
)
    requires
        decoded_json(quote) == Ok::<Seq<char>, FailureView>(json),
    ensures
        run(Command::Decode, false, source, Ok(quote), retrieved, clock) == Ok::<
            OutputView,
            FailureView,
        >(decode_output(json)),
        decode_output(json) == (OutputView { stdout: json, diagnostic: None, file: None }),
{
}

/// A quote written as hex, with or without `0x` before it and with or
/// without a line feed after it, and read with the hex flag set, ends every
/// command as the raw quote does when read without the flag.
pub proof fn theorem_hex_file_equals_raw_file(
    command: Command,
    source: SourceView,
    quote: Seq<u8>,
    prefixed: bool,
    newline: bool,
    retrieved: Result<CollateralView, Seq<char>>,
    clock: Result<u64, Seq<char>>,
)
    ensures
        run(
            command,
            true,
            source,
            Ok(framed(hex_digits(quote), prefixed, newline)),
            retrieved,
            clock,
        ) == run(command, false, source, Ok(quote), retrieved, clock),
        next(
            DispatcherView { command, is_hex: true, source, stage: StageView::ReadingQuote },
            EventView::QuoteRead(Ok(framed(hex_digits(quote), prefixed, newline))),
        ) == next(
            DispatcherView { command, is_hex: false, source, stage: StageView::ReadingQuote },
            EventView::QuoteRead(Ok(quote)),
        ),
{
    theorem_hex_round_trip(quote, prefixed, newline);
}

} // verus!
