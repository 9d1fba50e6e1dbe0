//! Whole runs: what holds of every sequence of events a session may be fed.

use vstd::prelude::*;
use crate::action::{requested, Action};
use crate::error::{status_of, ErrorKind};
use crate::payload::{
    lemma_off_replaces_markers, lemma_on_keeps_report, with_state, MARKER_OFF, MARKER_ON, TEMPLATE,
};
use crate::session::{transfer_result, Event, Session, StepView, ENDPOINT_OUT, TIMEOUT_MS};

verus! {

/// The state reached from `start` once the first `n` of `events` are taken in.
pub open spec fn state_after(start: Session, events: Seq<Event>, n: nat) -> Session
    recommends
        n <= events.len(),
    decreases n,
{
    if n == 0 {
        start
    } else {
        state_after(start, events, (n - 1) as nat).after(events[n - 1])
    }
}

/// The operation that is pending once the first `n` of `events` are taken in.
pub open spec fn step_after(start: Session, events: Seq<Event>, n: nat) -> StepView
    recommends
        n <= events.len(),
{
    state_after(start, events, n).pending_step()
}

/// Whether one of the first `n` of `events` drew a fatal verdict.
pub open spec fn drew_fatal(start: Session, events: Seq<Event>, n: nat) -> bool
    recommends
        n <= events.len(),
{
    exists|k: nat|
        k < n && #[trigger] state_after(start, events, k).verdict_of(events[k as int]) is Fatal
}

/// Whether a fatal failure has been recorded in this state.
pub open spec fn has_failed(state: Session) -> bool {
    match state {
        Session::Releasing(failed) => failed is Some,
        Session::Reattaching(failed) => failed is Some,
        Session::Finished(result) => result is Some,
        _ => false,
    }
}

/// The action a state still has to carry out, while the report is not yet written.
pub open spec fn carried_action(state: Session) -> Option<Action> {
    match state {
        Session::OpeningContext(action) => Some(action),
        Session::OpeningDevice(action) => Some(action),
        Session::QueryingDriver(action) => Some(action),
        Session::DetachingDriver(action) => Some(action),
        Session::ClaimingInterface(action) => Some(action),
        Session::Writing(action) => Some(action),
        _ => None,
    }
}

/// Every event moves an unfinished session strictly forward in the linear
/// order; a finished session stays as it is.
pub proof fn lemma_event_moves_forward(state: Session, event: Event)
    ensures
        !(state is Finished) ==> state.after(event).rank() > state.rank(),
        state is Finished ==> state.after(event) == state,
{
}

/// Along a run the rank never falls, and it grows by at least one with each
/// event until the session is finished.
pub proof fn lemma_rank_grows(start: Session, events: Seq<Event>, i: nat, j: nat)
    requires
        i <= j,
    ensures
        state_after(start, events, i).rank() <= state_after(start, events, j).rank(),
        state_after(start, events, j) is Finished || state_after(start, events, j).rank()
            >= state_after(start, events, i).rank() + (j - i),
    decreases j,
{
    if i < j {
        let before = (j - 1) as nat;
        lemma_rank_grows(start, events, i, before);
        lemma_event_moves_forward(state_after(start, events, before), events[j - 1]);
    }
}

/// Every run is over after nine events at most, whatever they are.
pub proof fn theorem_run_terminates(start: Session, events: Seq<Event>, n: nat)
    requires
        n + start.rank() >= 9,
    ensures
        state_after(start, events, n) is Finished,
{
    lemma_rank_grows(start, events, 0, n);
}

/// Once a session is finished, the only operation it ever asks for is to leave
/// the process, with the status of its result.
pub proof fn theorem_finished_is_final(result: Option<ErrorKind>, events: Seq<Event>, n: nat)
    ensures
        state_after(Session::Finished(result), events, n) == Session::Finished(result),
        step_after(Session::Finished(result), events, n) == (StepView::Exit {
            code: status_of(result),
        }),
    decreases n,
{
    if n > 0 {
        theorem_finished_is_final(result, events, (n - 1) as nat);
    }
}

/// Arguments that are not exactly one of the two accepted words lead to no
/// operation on the USB subsystem or the device: all the session ever asks for
/// is to leave with status one.
pub proof fn theorem_rejected_arguments_touch_no_device(
    tokens: Seq<String>,
    events: Seq<Event>,
    n: nat,
)
    requires
        requested(tokens) is None,
    ensures
        step_after(Session::initial(tokens), events, n) == (StepView::Exit { code: 1 }),
        !step_after(Session::initial(tokens), events, n).is_device_io(),
{
    theorem_finished_is_final(Some(ErrorKind::Usage), events, n);
}

/// No operation on the device is asked for twice in a run. In particular the
/// report is sent in one transfer.
pub proof fn theorem_no_operation_repeats(start: Session, events: Seq<Event>, i: nat, j: nat)
    requires
        i < j,
        step_after(start, events, i).is_device_io(),
    ensures
        step_after(start, events, j) != step_after(start, events, i),
        step_after(start, events, i) is WriteInterrupt ==> !(step_after(start, events, j)
            is WriteInterrupt),
{
    lemma_rank_grows(start, events, i, j);
}

/// A run keeps the action it was started with until the report is written.
pub proof fn lemma_action_is_kept(start: Session, events: Seq<Event>, n: nat)
    ensures
        carried_action(state_after(start, events, n)) is Some ==> carried_action(
            state_after(start, events, n),
        ) == carried_action(start),
    decreases n,
{
    if n > 0 {
        lemma_action_is_kept(start, events, (n - 1) as nat);
    }
}

/// Whenever a run asks for the write, the report it hands over is the template
/// with the markers of the requested action: 64 bytes, for the interrupt
/// endpoint, under the fixed timeout.
pub proof fn theorem_written_report(tokens: Seq<String>, events: Seq<Event>, n: nat)
    requires
        step_after(Session::initial(tokens), events, n) is WriteInterrupt,
    ensures
        requested(tokens) is Some,
        step_after(Session::initial(tokens), events, n) == (StepView::WriteInterrupt {
            endpoint: ENDPOINT_OUT,
            payload: with_state(TEMPLATE@, requested(tokens).unwrap()),
            timeout_ms: TIMEOUT_MS,
        }),
        step_after(Session::initial(tokens), events, n)->payload.len() == 64,
{
    lemma_action_is_kept(Session::initial(tokens), events, n);
}

/// A run that was asked to switch the board on sends the template, byte for byte.
pub proof fn theorem_on_sends_the_template(tokens: Seq<String>, events: Seq<Event>, n: nat)
    requires
        requested(tokens) == Some(Action::On),
        step_after(Session::initial(tokens), events, n) is WriteInterrupt,
    ensures
        step_after(Session::initial(tokens), events, n)->payload == TEMPLATE@,
{
    theorem_written_report(tokens, events, n);
    lemma_on_keeps_report(TEMPLATE@);
}

/// A run that was asked to switch the board off sends the template with
/// every on-marker replaced by the off-marker, and no other byte changed.
pub proof fn theorem_off_sends_the_flipped_template(
    tokens: Seq<String>,
    events: Seq<Event>,
    n: nat,
)
    requires
        requested(tokens) == Some(Action::Off),
        step_after(Session::initial(tokens), events, n) is WriteInterrupt,
    ensures
        step_after(Session::initial(tokens), events, n)->payload.len() == 64,
        forall|i: int|
            0 <= i < 64 ==> #[trigger] step_after(Session::initial(tokens), events, n)->payload[i]
                == (if TEMPLATE@[i] == MARKER_ON {
                MARKER_OFF
            } else {
                TEMPLATE@[i]
            }),
{
    theorem_written_report(tokens, events, n);
    lemma_off_replaces_markers(TEMPLATE@);
}

/// When the device is acquired without a failure, the run comes to the write:
/// after four events, or after five when a kernel driver had to be detached.
pub proof fn theorem_acquired_device_is_written_to(tokens: Seq<String>, events: Seq<Event>)
    requires
        requested(tokens) is Some,
        events.len() >= 5,
        forall|k: int| 0 <= k < 5 ==> events[k] != Event::Failed,
    ensures
        events[2] != Event::DriverActive ==> step_after(Session::initial(tokens), events, 4)
            is WriteInterrupt,
        events[2] == Event::DriverActive ==> step_after(Session::initial(tokens), events, 5)
            is WriteInterrupt,
{
    reveal_with_fuel(state_after, 6);
}

/// Two runs that request the same action send identical reports, whatever
/// else happens in either of them.
pub proof fn theorem_same_action_same_report(
    first: Seq<String>,
    first_events: Seq<Event>,
    m: nat,
    second: Seq<String>,
    second_events: Seq<Event>,
    n: nat,
)
    requires
        requested(first) == requested(second),
        step_after(Session::initial(first), first_events, m) is WriteInterrupt,
        step_after(Session::initial(second), second_events, n) is WriteInterrupt,
    ensures
        step_after(Session::initial(first), first_events, m) == step_after(
            Session::initial(second),
            second_events,
            n,
        ),
{
    theorem_written_report(first, first_events, m);
    theorem_written_report(second, second_events, n);
}

/// A fatal failure before the interface is claimed ends the run at once:
/// nothing is asked for afterwards but to leave with status one. This is so
/// when the USB subsystem does not start, when the device is not found, when
/// the kernel driver cannot be detached and when the claim is refused.
pub proof fn theorem_early_failure_ends_the_run(state: Session, events: Seq<Event>, n: nat)
    requires
        state.verdict_of(Event::Failed) is Fatal,
        !state.holds_interface(),
    ensures
        state is OpeningContext || state is OpeningDevice || state is DetachingDriver
            || state is ClaimingInterface,
        state.after(Event::Failed) == Session::Finished(
            Some(state.verdict_of(Event::Failed)->Fatal_0),
        ),
        step_after(state.after(Event::Failed), events, n) == (StepView::Exit { code: 1 }),
{
    theorem_finished_is_final(Some(state.verdict_of(Event::Failed)->Fatal_0), events, n);
}

/// A transfer that fails is followed by the whole cleanup, and then by an exit
/// with status one, however the cleanup itself goes.
pub proof fn theorem_failed_transfer_is_cleaned_up(
    state: Session,
    release: Event,
    reattach: Event,
)
    requires
        state is Writing || state is Reading,
    ensures
        state.after(Event::Failed).pending_step() is ReleaseInterface,
        state.after(Event::Failed).after(release).pending_step() is AttachKernelDriver,
        state.after(Event::Failed).after(release).after(reattach).pending_step()
            == (StepView::Exit { code: 1 }),
{
}

/// Failures of the cleanup never change the result of a run.
pub proof fn theorem_cleanup_keeps_result(state: Session, release: Event, reattach: Event)
    requires
        state is Releasing,
    ensures
        state.after(release).after(reattach) == Session::Finished(
            transfer_result(state->Releasing_0),
        ),
{
}

/// A run that has claimed the interface does not finish without giving it
/// back: the two operations before the exit are the release and the
/// reattachment, in this order.
pub proof fn theorem_claim_is_given_back(start: Session, events: Seq<Event>, i: nat, n: nat)
    requires
        i < n,
        state_after(start, events, i).holds_interface(),
        state_after(start, events, n) is Finished,
        !(state_after(start, events, (n - 1) as nat) is Finished),
    ensures
        n >= 2,
        step_after(start, events, (n - 2) as nat) is ReleaseInterface,
        step_after(start, events, (n - 1) as nat) is AttachKernelDriver,
{
    let last = (n - 1) as nat;
    lemma_rank_grows(start, events, i, last);
    assert(state_after(start, events, last) is Reattaching);
    assert(i < last);
    let before = (n - 2) as nat;
    lemma_rank_grows(start, events, i, before);
    assert(state_after(start, events, last) == state_after(start, events, before).after(
        events[last - 1],
    ));
}

/// A run that starts before the claim and never comes to hold the interface
/// asks for no transfer and no cleanup.
pub proof fn theorem_no_cleanup_without_claim(start: Session, events: Seq<Event>, n: nat, i: nat)
    requires
        i <= n,
        start.rank() <= 4,
        forall|k: nat| k <= n ==> !state_after(start, events, k).holds_interface(),
    ensures
        !step_after(start, events, i).is_cleanup(),
        !step_after(start, events, i).is_transfer(),
    decreases i,
{
    if i > 0 {
        theorem_no_cleanup_without_claim(start, events, n, (i - 1) as nat);
        assert(!state_after(start, events, (i - 1) as nat).holds_interface());
    }
    assert(!state_after(start, events, i).holds_interface());
}

/// A fatal failure is recorded exactly when an event draws a fatal verdict.
pub proof fn lemma_failure_is_recorded(state: Session, event: Event)
    ensures
        has_failed(state.after(event)) <==> has_failed(state) || state.verdict_of(event) is Fatal,
{
}

/// Along a run, a failure is on record exactly when one of the events so far
/// drew a fatal verdict.
pub proof fn lemma_failures_accumulate(start: Session, events: Seq<Event>, n: nat)
    requires
        !has_failed(start),
    ensures
        has_failed(state_after(start, events, n)) <==> drew_fatal(start, events, n),
    decreases n,
{
    if n > 0 {
        let before = (n - 1) as nat;
        lemma_failures_accumulate(start, events, before);
        lemma_failure_is_recorded(state_after(start, events, before), events[before as int]);
        if has_failed(state_after(start, events, before)) {
            let k = choose|k: nat|
                k < before && #[trigger] state_after(start, events, k).verdict_of(
                    events[k as int],
                ) is Fatal;
            assert(k < n);
        } else if has_failed(state_after(start, events, n)) {
            assert(state_after(start, events, before).verdict_of(events[before as int])
                is Fatal);
        }
    }
}

/// The exit status tells success from failure: a run that starts without a
/// failure on record ends with status one when an event drew a fatal verdict,
/// and with status zero when none did.
pub proof fn theorem_status_reflects_failures(start: Session, events: Seq<Event>, n: nat)
    requires
        !has_failed(start),
        state_after(start, events, n) is Finished,
    ensures
        step_after(start, events, n) == (StepView::Exit {
            code: if drew_fatal(start, events, n) {
                1i32
            } else {
                0i32
            },
        }),
{
    lemma_failures_accumulate(start, events, n);
}

} // verus!
