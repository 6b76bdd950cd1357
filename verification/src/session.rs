//! A run, step by step.
//!
//! A run asks for work that only the outside can do: listing the regions,
//! reading a line, reading and writing the store. The session decides, from
//! what came back, which step is next. Whoever drives it performs the step and
//! hands back the event. The session itself reads and writes nothing.

use crate::apply::{process_ssm_changes, writes_for, WriteRequest, WriteRequestView};
use crate::config::{CommandLineArgs, CommandLineArgsView};
use crate::fetch_outcome::{FetchOutcome, FetchOutcomeView};
use crate::parameter_type::{ParameterType, ParameterTypeView};
use crate::ssm_change::{change_for, SSMChange, SSMChangeView};
use crate::ssm_change_error::SSMChangeError;
use crate::text::{confirms, entered_value, is_confirmation, trimmed_end};
use vstd::prelude::*;

verus! {

/// Where a run stands: what it waits for.
#[derive(Debug, Clone, Copy, PartialEq, Eq, Structural)]
pub enum Phase {
    /// For the list of regions.
    ListingRegions,
    /// For the warning to have been shown.
    Warning,
    /// For the line that enters the value.
    ReadingValue,
    /// For the store's answer in the next region.
    Fetching,
    /// For the change set to have been shown.
    Showing,
    /// For the line that confirms or declines.
    Confirming,
    /// For a write to have been made.
    Applying,
    /// For the report of success to have been shown.
    Reporting,
    /// For nothing: the run is over.
    Closed,
}

/// Why a run ends in failure.
#[derive(Debug, Clone, Copy, PartialEq, Eq, Structural)]
pub enum Failure {
    /// The change of a region could not be calculated.
    Calculation(SSMChangeError),
    /// The outside failed at the step it was asked for.
    Collaborator,
    /// An event came that the run was not waiting for.
    OutOfTurn,
}

/// What the driver of a run is to do next.
#[derive(Debug)]
pub enum Step {
    /// List the regions.
    ListRegions,
    /// Show the line.
    Say(String),
    /// Show the prompt and read a line.
    Ask(String),
    /// Read the parameter in the region.
    Fetch { parameter: String, region: String },
    /// Show the change set and the key to its marks.
    ShowChanges,
    /// Make the write.
    Write(WriteRequest),
    /// End the run: it succeeded.
    Finish,
    /// End the run: it failed.
    Abort(Failure),
}

/// What a `Step` is, with texts as sequences of characters.
pub enum StepView {
    ListRegions,
    Say(Seq<char>),
    Ask(Seq<char>),
    Fetch { parameter: Seq<char>, region: Seq<char> },
    ShowChanges,
    Write(WriteRequestView),
    Finish,
    Abort(Failure),
}

impl View for Step {
    type V = StepView;

    open spec fn view(&self) -> StepView {
        match self {
            Step::ListRegions => StepView::ListRegions,
            Step::Say(line) => StepView::Say(line@),
            Step::Ask(prompt) => StepView::Ask(prompt@),
            Step::Fetch { parameter, region } => StepView::Fetch {
                parameter: parameter@,
                region: region@,
            },
            Step::ShowChanges => StepView::ShowChanges,
            Step::Write(request) => StepView::Write(request@),
            Step::Finish => StepView::Finish,
            Step::Abort(failure) => StepView::Abort(*failure),
        }
    }
}

/// What came of the step that the driver was asked for.
#[derive(Debug)]
pub enum Event {
    /// The regions were listed.
    Regions(Vec<String>),
    /// A line was read.
    Line(String),
    /// The store answered the read, or failed to.
    Fetched(FetchOutcome),
    /// The step was done, and there is nothing to hand back.
    Done,
    /// The step failed.
    Failed,
}

/// What an `Event` is, with texts as sequences of characters.
pub enum EventView {
    Regions(Seq<Seq<char>>),
    Line(Seq<char>),
    Fetched(FetchOutcomeView),
    Done,
    Failed,
}

impl View for Event {
    type V = EventView;

    open spec fn view(&self) -> EventView {
        match self {
            Event::Regions(regions) => EventView::Regions(regions.deep_view()),
            Event::Line(line) => EventView::Line(line@),
            Event::Fetched(outcome) => EventView::Fetched(outcome@),
            Event::Done => EventView::Done,
            Event::Failed => EventView::Failed,
        }
    }
}

/// The line that warns of a value given on the command line.
pub open spec fn warning_text() -> Seq<char> {
    "WARN: Value provided via CLI. If this is a secret, please ensure you remove this command from your shells history, or ensure a ' ' space was prepended to the command"@
}

/// The prompt for the value.
pub open spec fn value_prompt() -> Seq<char> {
    "Enter parameter value: "@
}

/// The prompt for the confirmation.
pub open spec fn confirmation_prompt() -> Seq<char> {
    "\nPlease confirm you want to make these changes (y/N): "@
}

/// The line that reports success.
pub open spec fn success_text() -> Seq<char> {
    "Successfully synced parameters across regions"@
}

/// The state of a run.
pub struct SessionView {
    /// What the run waits for.
    pub phase: Phase,
    /// The name of the parameter.
    pub parameter: Seq<char>,
    /// The type with which the parameter is created.
    pub type_param: ParameterTypeView,
    /// Whether nothing is to be written.
    pub dry_run: bool,
    /// The value given on the command line, if any.
    pub given_value: Option<Seq<char>>,
    /// The regions to work on, once known.
    pub regions: Seq<Seq<char>>,
    /// The desired value, once known.
    pub value: Seq<char>,
    /// The changes calculated so far: one for each region read, in the order
    /// of the regions.
    pub changes: Seq<SSMChangeView>,
    /// The writes to make, once confirmed.
    pub writes: Seq<WriteRequestView>,
    /// How many of the writes have been made.
    pub written: nat,
}

impl SessionView {
    /// This run, over.
    pub open spec fn closed(self) -> SessionView {
        SessionView { phase: Phase::Closed, ..self }
    }

    /// The run ends in failure.
    pub open spec fn fail(self, failure: Failure) -> (SessionView, StepView) {
        (self.closed(), StepView::Abort(failure))
    }

    /// The regions are known. The value comes next: one given on the command
    /// line is taken with a warning, else it is asked for.
    pub open spec fn with_regions(self, regions: Seq<Seq<char>>) -> (SessionView, StepView) {
        match self.given_value {
            Some(value) => (
                SessionView { phase: Phase::Warning, regions, value, ..self },
                StepView::Say(warning_text()),
            ),
            None => (
                SessionView { phase: Phase::ReadingValue, regions, ..self },
                StepView::Ask(value_prompt()),
            ),
        }
    }

    /// The regions are read one after the other, in their order. When all are
    /// read the change set is shown.
    pub open spec fn fetch_or_show(self) -> (SessionView, StepView) {
        if self.changes.len() < self.regions.len() {
            (
                SessionView { phase: Phase::Fetching, ..self },
                StepView::Fetch {
                    parameter: self.parameter,
                    region: self.regions[self.changes.len() as int],
                },
            )
        } else {
            (SessionView { phase: Phase::Showing, ..self }, StepView::ShowChanges)
        }
    }

    /// The writes are made one after the other, in their order. When all are
    /// made success is reported.
    pub open spec fn write_or_report(self) -> (SessionView, StepView) {
        if self.written < self.writes.len() {
            (
                SessionView { phase: Phase::Applying, ..self },
                StepView::Write(self.writes[self.written as int]),
            )
        } else {
            (SessionView { phase: Phase::Reporting, ..self }, StepView::Say(success_text()))
        }
    }

    /// The state after `event`, and the step to take then.
    ///
    /// A failed step ends the run at once: nothing more is read or written, and
    /// what was written stays. A region whose change cannot be calculated ends
    /// it too. With `dry_run` the run ends when the change set has been shown.
    /// Without it the user is asked, and only a line that confirms leads to
    /// writes.
    pub open spec fn next(self, event: EventView) -> (SessionView, StepView) {
        match (self.phase, event) {
            (Phase::Closed, _) => self.fail(Failure::OutOfTurn),
            (_, EventView::Failed) => self.fail(Failure::Collaborator),
            (Phase::ListingRegions, EventView::Regions(regions)) => self.with_regions(regions),
            (Phase::Warning, EventView::Done) => self.fetch_or_show(),
            (Phase::ReadingValue, EventView::Line(line)) => (SessionView {
                value: trimmed_end(line),
                ..self
            }).fetch_or_show(),
            (Phase::Fetching, EventView::Fetched(outcome)) => if self.changes.len()
                < self.regions.len() {
                match change_for(
                    outcome,
                    self.regions[self.changes.len() as int],
                    self.parameter,
                    self.value,
                    self.type_param,
                ) {
                    Ok(change) => (SessionView {
                        changes: self.changes.push(change),
                        ..self
                    }).fetch_or_show(),
                    Err(error) => self.fail(Failure::Calculation(error)),
                }
            } else {
                self.fail(Failure::OutOfTurn)
            },
            (Phase::Showing, EventView::Done) => if self.dry_run {
                (self.closed(), StepView::Finish)
            } else {
                (
                    SessionView { phase: Phase::Confirming, ..self },
                    StepView::Ask(confirmation_prompt()),
                )
            },
            (Phase::Confirming, EventView::Line(line)) => if confirms(line) {
                (SessionView {
                    writes: writes_for(self.changes),
                    written: 0,
                    ..self
                }).write_or_report()
            } else {
                (self.closed(), StepView::Finish)
            },
            (Phase::Applying, EventView::Done) => if self.written < self.writes.len() {
                (SessionView { written: self.written + 1, ..self }).write_or_report()
            } else {
                self.fail(Failure::OutOfTurn)
            },
            (Phase::Reporting, EventView::Done) => (self.closed(), StepView::Finish),
            _ => self.fail(Failure::OutOfTurn),
        }
    }
}

/// The state in which a run with `args` begins, and its first step: the
/// regions are listed unless they were given.
pub open spec fn begin(args: CommandLineArgsView) -> (SessionView, StepView) {
    let fresh = SessionView {
        phase: Phase::ListingRegions,
        parameter: args.parameter,
        type_param: args.type_param,
        dry_run: args.dry_run,
        given_value: args.value,
        regions: Seq::empty(),
        value: Seq::empty(),
        changes: Seq::empty(),
        writes: Seq::empty(),
        written: 0,
    };
    match args.regions {
        Some(regions) => fresh.with_regions(regions),
        None => (fresh, StepView::ListRegions),
    }
}

/// A run in progress.
pub struct Session {
    phase: Phase,
    parameter: String,
    type_param: ParameterType,
    dry_run: bool,
    given_value: Option<String>,
    regions: Vec<String>,
    value: String,
    changes: Vec<SSMChange>,
    writes: Vec<WriteRequest>,
    written: usize,
}

impl View for Session {
    type V = SessionView;

    closed spec fn view(&self) -> SessionView {
        SessionView {
            phase: self.phase,
            parameter: self.parameter@,
            type_param: self.type_param@,
            dry_run: self.dry_run,
            given_value: self.given_value.deep_view(),
            regions: self.regions.deep_view(),
            value: self.value@,
            changes: self.changes.deep_view(),
            writes: self.writes.deep_view(),
            written: self.written as nat,
        }
    }
}

impl Session {
    /// Begins a run with `args` and returns it with its first step.
    pub fn start(args: CommandLineArgs) -> (begun: (Session, Step))
        ensures
            (begun.0@, begun.1@) == begin(args@),
    {
        let mut session = Session {
            phase: Phase::ListingRegions,
            parameter: args.parameter,
            type_param: args.type_param,
            dry_run: args.dry_run,
            given_value: args.value,
            regions: Vec::new(),
            value: String::new(),
            changes: Vec::new(),
            writes: Vec::new(),
            written: 0,
        };
        assert(session.regions.deep_view() =~= Seq::empty());
        assert(session.changes.deep_view() =~= Seq::empty());
        assert(session.writes.deep_view() =~= Seq::empty());
        match args.regions {
            Some(regions) => {
                let step = session.with_regions(regions);
                (session, step)
            },
            None => (session, Step::ListRegions),
        }
    }

    /// Takes in what came of the last step and returns the next one.
    pub fn advance(&mut self, event: Event) -> (step: Step)
        ensures
            (final(self)@, step@) == old(self)@.next(event@),
    {
        match self.phase {
            Phase::Closed => {
                return self.fail(Failure::OutOfTurn);
            },
            _ => {},
        }
        match event {
            Event::Failed => self.fail(Failure::Collaborator),
            Event::Regions(regions) => match self.phase {
                Phase::ListingRegions => self.with_regions(regions),
                _ => self.fail(Failure::OutOfTurn),
            },
            Event::Line(line) => match self.phase {
                Phase::ReadingValue => {
                    self.value = entered_value(line.as_str());
                    self.fetch_or_show()
                },
                Phase::Confirming => {
                    if is_confirmation(line.as_str()) {
                        self.writes = process_ssm_changes(&self.changes);
                        self.written = 0;
                        self.write_or_report()
                    } else {
                        self.phase = Phase::Closed;
                        Step::Finish
                    }
                },
                _ => self.fail(Failure::OutOfTurn),
            },
            Event::Fetched(outcome) => match self.phase {
                Phase::Fetching => {
                    if self.changes.len() < self.regions.len() {
                        let calculated = SSMChange::calculate_change(
                            outcome,
                            self.regions[self.changes.len()].as_str(),
                            self.parameter.as_str(),
                            self.value.as_str(),
                            &self.type_param,
                        );
                        match calculated {
                            Ok(change) => {
                                let ghost before = self.changes.deep_view();
                                self.changes.push(change);
                                assert(self.changes.deep_view() =~= before.push(change@));
                                self.fetch_or_show()
                            },
                            Err(error) => self.fail(Failure::Calculation(error)),
                        }
                    } else {
                        self.fail(Failure::OutOfTurn)
                    }
                },
                _ => self.fail(Failure::OutOfTurn),
            },
            Event::Done => match self.phase {
                Phase::Warning => self.fetch_or_show(),
                Phase::Showing => {
                    if self.dry_run {
                        self.phase = Phase::Closed;
                        Step::Finish
                    } else {
                        self.phase = Phase::Confirming;
                        Step::Ask(
                            "\nPlease confirm you want to make these changes (y/N): ".to_owned(),
                        )
                    }
                },
                Phase::Applying => {
                    if self.written < self.writes.len() {
                        self.written += 1;
                        self.write_or_report()
                    } else {
                        self.fail(Failure::OutOfTurn)
                    }
                },
                Phase::Reporting => {
                    self.phase = Phase::Closed;
                    Step::Finish
                },
                _ => self.fail(Failure::OutOfTurn),
            },
        }
    }

    /// Returns what the run waits for.
    pub fn phase(&self) -> (phase: Phase)
        ensures
            phase == self@.phase,
    {
        self.phase
    }

    /// Returns whether the run is over.
    pub fn is_closed(&self) -> (closed: bool)
        ensures
            closed == (self@.phase == Phase::Closed),
    {
        match self.phase {
            Phase::Closed => true,
            _ => false,
        }
    }

    /// Returns the changes calculated so far, in the order of the regions.
    pub fn changes(&self) -> (changes: &Vec<SSMChange>)
        ensures
            changes.deep_view() == self@.changes,
    {
        &self.changes
    }

    fn fail(&mut self, failure: Failure) -> (step: Step)
        ensures
            (final(self)@, step@) == old(self)@.fail(failure),
    {
        self.phase = Phase::Closed;
        Step::Abort(failure)
    }

    fn with_regions(&mut self, regions: Vec<String>) -> (step: Step)
        ensures
            (final(self)@, step@) == old(self)@.with_regions(regions.deep_view()),
    {
        self.regions = regions;
        match &self.given_value {
            Some(value) => {
                self.value = value.clone();
                self.phase = Phase::Warning;
                Step::Say(
                    "WARN: Value provided via CLI. If this is a secret, please ensure you remove this command from your shells history, or ensure a ' ' space was prepended to the command".to_owned(),
                )
            },
            None => {
                self.phase = Phase::ReadingValue;
                Step::Ask("Enter parameter value: ".to_owned())
            },
        }
    }

    fn fetch_or_show(&mut self) -> (step: Step)
        ensures
            (final(self)@, step@) == old(self)@.fetch_or_show(),
    {
        if self.changes.len() < self.regions.len() {
            self.phase = Phase::Fetching;
            Step::Fetch {
                parameter: self.parameter.clone(),
                region: self.regions[self.changes.len()].clone(),
            }
        } else {
            self.phase = Phase::Showing;
            Step::ShowChanges
        }
    }

    fn write_or_report(&mut self) -> (step: Step)
        ensures
            (final(self)@, step@) == old(self)@.write_or_report(),
    {
        if self.written < self.writes.len() {
            self.phase = Phase::Applying;
            Step::Write(self.writes[self.written].clone())
        } else {
            self.phase = Phase::Reporting;
            Step::Say("Successfully synced parameters across regions".to_owned())
        }
    }
}

} // verus!
