//! What holds of every run, proved of the session's states and steps.

use crate::apply::writes_for;
use crate::config::CommandLineArgsView;
use crate::fetch_outcome::FetchOutcomeView;
use crate::session::{begin, success_text, EventView, Failure, Phase, SessionView, StepView};
use crate::ssm_change::{change_for, SSMChangeView};
use crate::ssm_change_error::SSMChangeError;
use crate::text::{confirms, lemma_refusals_do_not_confirm};
use vstd::prelude::*;

verus! {

impl SessionView {
    /// Whether the changes calculated so far are those of the first regions,
    /// one for each and in their order, for this run's parameter and value.
    pub open spec fn changes_follow_regions(self) -> bool {
        &&& self.changes.len() <= self.regions.len()
        &&& forall|i: int|
            0 <= i < self.changes.len() ==> {
                &&& (#[trigger] self.changes[i]).region == self.regions[i]
                &&& self.changes[i].parameter == self.parameter
                &&& self.changes[i].value == self.value
            }
    }

    /// What holds of the state of a run at every moment.
    ///
    /// Nothing is calculated before the value is known. The change set is
    /// shown, and anything asked or written, only when every region was read.
    /// A dry run asks and writes nothing. The writes under way are those of the
    /// change set that was shown.
    pub open spec fn consistent(self) -> bool {
        &&& self.changes_follow_regions()
        &&& match self.phase {
            Phase::ListingRegions | Phase::Warning | Phase::ReadingValue => self.changes.len()
                == 0,
            Phase::Fetching => self.changes.len() < self.regions.len(),
            Phase::Showing => self.changes.len() == self.regions.len(),
            Phase::Confirming => self.changes.len() == self.regions.len() && !self.dry_run,
            Phase::Applying => {
                &&& self.changes.len() == self.regions.len()
                &&& !self.dry_run
                &&& self.writes == writes_for(self.changes)
                &&& self.written < self.writes.len()
            },
            Phase::Reporting => {
                &&& self.changes.len() == self.regions.len()
                &&& !self.dry_run
                &&& self.writes == writes_for(self.changes)
                &&& self.written == self.writes.len()
            },
            Phase::Closed => true,
        }
    }
}

/// A run begins in a consistent state.
pub proof fn lemma_begin_is_consistent(args: CommandLineArgsView)
    ensures
        begin(args).0.consistent(),
{
}

/// Whatever comes back, a consistent state is followed by a consistent one.
pub proof fn lemma_next_keeps_consistent(state: SessionView, event: EventView)
    requires
        state.consistent(),
    ensures
        state.next(event).0.consistent(),
{
    let after = state.next(event).0;
    match (state.phase, event) {
        (Phase::Fetching, EventView::Fetched(outcome)) => {
            let region = state.regions[state.changes.len() as int];
            match change_for(outcome, region, state.parameter, state.value, state.type_param) {
                Ok(change) => {
                    assert(change.region == region);
                    assert(change.parameter == state.parameter);
                    assert(change.value == state.value);
                    assert(after.changes == state.changes.push(change));
                    assert forall|i: int| 0 <= i < after.changes.len() implies {
                        &&& (#[trigger] after.changes[i]).region == after.regions[i]
                        &&& after.changes[i].parameter == after.parameter
                        &&& after.changes[i].value == after.value
                    } by {
                        if i < state.changes.len() {
                            assert(after.changes[i] == state.changes[i]);
                        }
                    }
                },
                Err(_) => {},
            }
        },
        _ => {},
    }
}

/// A run that is over stays over: it asks for nothing more, and for no write.
pub proof fn lemma_closed_stays_closed(state: SessionView, event: EventView)
    requires
        state.phase == Phase::Closed,
    ensures
        state.next(event) == (state, StepView::Abort(Failure::OutOfTurn)),
{
}

/// A step that fails ends the run at once, whatever it was waiting for: the
/// writes that remain are not made, and those made are not undone.
pub proof fn lemma_failure_ends_run(state: SessionView)
    requires
        state.phase != Phase::Closed,
    ensures
        state.next(EventView::Failed) == (state.closed(), StepView::Abort(Failure::Collaborator)),
        state.next(EventView::Failed).0.written == state.written,
{
}

/// A region whose change cannot be calculated ends the run with that error:
/// the regions after it are not read.
pub proof fn lemma_calculation_error_ends_run(
    state: SessionView,
    outcome: FetchOutcomeView,
    error: SSMChangeError,
)
    requires
        state.phase == Phase::Fetching,
        state.changes.len() < state.regions.len(),
        change_for(
            outcome,
            state.regions[state.changes.len() as int],
            state.parameter,
            state.value,
            state.type_param,
        ) == Err::<SSMChangeView, _>(error),
    ensures
        state.next(EventView::Fetched(outcome)) == (
            state.closed(),
            StepView::Abort(Failure::Calculation(error)),
        ),
{
}

/// The regions are read in their order: the region read next is the one after
/// those whose changes are calculated, and it is read for the run's parameter.
pub proof fn lemma_regions_are_read_in_order(state: SessionView, event: EventView)
    requires
        state.next(event).1 is Fetch,
    ensures
        ({
            let (after, step) = state.next(event);
            &&& after.changes.len() < after.regions.len()
            &&& step->region == after.regions[after.changes.len() as int]
            &&& step->parameter == state.parameter
        }),
{
}

/// A line that does not confirm ends the run in success without a write,
/// whatever the change set holds.
pub proof fn lemma_declining_writes_nothing(state: SessionView, line: Seq<char>)
    requires
        state.phase == Phase::Confirming,
        !confirms(line),
    ensures
        state.next(EventView::Line(line)) == (state.closed(), StepView::Finish),
{
}

/// The line `n` and the empty line decline.
pub proof fn lemma_no_and_empty_decline(state: SessionView)
    requires
        state.phase == Phase::Confirming,
    ensures
        state.next(EventView::Line(seq!['n'])) == (state.closed(), StepView::Finish),
        state.next(EventView::Line(Seq::empty())) == (state.closed(), StepView::Finish),
{
    lemma_refusals_do_not_confirm();
}

/// A write is asked for only when the user has just confirmed, or when the
/// write before it was made.
pub proof fn lemma_write_only_after_confirmation(state: SessionView, event: EventView)
    requires
        state.next(event).1 is Write,
    ensures
        ({
            ||| state.phase == Phase::Confirming && event is Line && confirms(event->Line_0)
            ||| state.phase == Phase::Applying && event is Done
        }),
{
}

/// A dry run never asks for confirmation and never writes.
pub proof fn lemma_dry_run_never_writes(state: SessionView, event: EventView)
    requires
        state.consistent(),
        state.dry_run,
    ensures
        !(state.next(event).1 is Write),
        !(state.next(event).1 is Ask && state.phase == Phase::Showing),
        state.next(event).0.dry_run,
        state.phase == Phase::Showing && event is Done ==> state.next(event) == (
            state.closed(),
            StepView::Finish,
        ),
{
}

/// The writes of a run are those of the change set that was shown, each asked
/// for once and in the order of the change set.
pub proof fn lemma_writes_follow_change_set(state: SessionView, event: EventView)
    requires
        state.consistent(),
        state.next(event).1 is Write,
    ensures
        ({
            let (after, step) = state.next(event);
            &&& after.changes == state.changes
            &&& after.written < writes_for(state.changes).len()
            &&& step->Write_0 == writes_for(state.changes)[after.written as int]
            &&& after.written == if state.phase == Phase::Confirming {
                0
            } else {
                state.written + 1
            }
        }),
{
}

/// Success is reported only when every write of the change set was made.
pub proof fn lemma_success_after_all_writes(state: SessionView, event: EventView)
    requires
        state.consistent(),
        state.next(event).0.phase == Phase::Reporting,
    ensures
        state.next(event).0.written == writes_for(state.changes).len(),
        state.next(event).1 == StepView::Say(success_text()),
{
}

} // verus!
