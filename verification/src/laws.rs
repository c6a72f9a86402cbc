use crate::action::{lemma_labels_differ, ActionView, PRIMARY_LABEL, SECONDARY_LABEL};
use crate::attempt::{AttemptView, REARM_DELAY_MS};
use crate::error::ErrorView;
use crate::event::PageEvent;
use crate::model::{CoordinatorView, FiringView, OpenStepView, Step};
use vstd::multiset::*;
use vstd::prelude::*;

verus! {

/// No step gives a label a second window.
pub proof fn lemma_step_keeps_labels_unique(state: CoordinatorView, step: Step)
    requires
        state.wf(),
    ensures
        state.step(step).wf(),
{
}

/// Whatever happens to a coordinator that starts without windows, at most
/// one window exists per label at any time.
pub proof fn lemma_labels_stay_unique(steps: Seq<Step>)
    ensures
        CoordinatorView::empty().run(steps).wf(),
    decreases steps.len(),
{
    if steps.len() > 0 {
        lemma_labels_stay_unique(steps.drop_last());
        lemma_step_keeps_labels_unique(
            CoordinatorView::empty().run(steps.drop_last()),
            steps.last(),
        );
    }
}

/// A window lives from the step that registers it to the step that closes
/// it: once registered its label carries exactly one window, once closed it
/// carries none, and neither step touches a window with another label.
pub proof fn lemma_window_lifecycle(state: CoordinatorView, label: Seq<char>)
    requires
        state.wf(),
    ensures
        state.register(label).windows.count(label) == 1,
        !state.close(label).has_window(label),
        forall|other: Seq<char>|
            other != label ==> state.register(label).windows.count(other) == state.windows.count(
                other,
            ) && state.close(label).windows.count(other) == state.windows.count(other),
        state.register(label).pending == state.pending,
        state.close(label).pending == state.pending,
{
}

/// Opening the secondary window is made of steps: reusing it schedules an
/// attempt, and recording a window that was built registers it and
/// schedules an attempt. Both therefore keep labels unique.
pub proof fn lemma_opening_is_made_of_steps(
    state: CoordinatorView,
    script: Seq<char>,
    built: Result<(), Seq<char>>,
)
    ensures
        match state.begin_open(script).1 {
            OpenStepView::Reused(attempt) => state.begin_open(script).0 == state.step(
                Step::Schedule(attempt),
            ),
            OpenStepView::Create => state.begin_open(script).0 == state,
        },
        match state.finish_open(script, built).1 {
            Ok(attempt) => state.finish_open(script, built).0 == state.step(
                Step::Register(SECONDARY_LABEL@),
            ).step(Step::Schedule(attempt)),
            Err(_) => state.finish_open(script, built).0 == state,
        },
{
}

/// A request to evaluate a script in a label that carries no window fails
/// with `WindowNotFound` for that label.
pub proof fn lemma_injection_needs_window(
    state: CoordinatorView,
    label: Seq<char>,
    script: Seq<char>,
)
    requires
        !state.has_window(label),
    ensures
        state.injection(label, script) == Err::<ActionView, ErrorView>(
            ErrorView::WindowNotFound { label },
        ),
{
}

/// Every opening of the secondary window that succeeds leaves exactly one
/// window with its label, whether the window was reused or built.
pub proof fn lemma_open_leaves_one_secondary(
    state: CoordinatorView,
    script: Seq<char>,
    built: Result<(), Seq<char>>,
)
    requires
        state.wf(),
    ensures
        state.begin_open(script).1 is Reused ==> state.begin_open(script).0.windows.count(
            SECONDARY_LABEL@,
        ) == 1,
        state.finish_open(script, built).1 is Ok ==> state.finish_open(
            script,
            built,
        ).0.windows.count(SECONDARY_LABEL@) == 1,
{
}

/// Opening the secondary window again while it exists reuses it: the
/// windows stay as they are, and only one more attempt waits.
pub proof fn lemma_open_again_reuses(
    state: CoordinatorView,
    first: Seq<char>,
    second: Seq<char>,
)
    requires
        state.wf(),
    ensures
        ({
            let opened = state.finish_open(first, Ok(())).0;
            let again = opened.begin_open(second);
            &&& again.1 is Reused
            &&& again.0.windows == opened.windows
            &&& again.0.windows.count(SECONDARY_LABEL@) == 1
            &&& again.0.pending == opened.pending.insert(again.1->Reused_0)
        }),
{
}

/// A navigation event schedules exactly one new attempt, with the re-arm
/// delay: that attempt waits once more than before, every other attempt
/// waits as often as before, and no window appears or disappears.
pub proof fn lemma_navigation_schedules_one(
    state: CoordinatorView,
    label: Seq<char>,
    payload: Seq<char>,
)
    ensures
        ({
            let attempt = AttemptView { label, payload, delay_ms: REARM_DELAY_MS };
            let after = state.schedule(attempt);
            &&& after.pending.len() == state.pending.len() + 1
            &&& after.pending.count(attempt) == state.pending.count(attempt) + 1
            &&& forall|other: AttemptView|
                other != attempt ==> after.pending.count(other) == state.pending.count(other)
            &&& after.windows == state.windows
        }),
{
}

/// Relaying a result while no primary window exists fails, whatever the
/// result is, and a relay never changes the state: it is a function of the
/// state alone.
pub proof fn lemma_relay_needs_primary(state: CoordinatorView, result: Seq<char>)
    requires
        !state.has_window(PRIMARY_LABEL@),
    ensures
        state.relay_to_primary(result) == Err::<ActionView, ErrorView>(
            ErrorView::PrimaryWindowNotFound,
        ),
        state.relay(SECONDARY_LABEL@, PRIMARY_LABEL@, result) == Err::<ActionView, ErrorView>(
            ErrorView::WindowNotFound { label: PRIMARY_LABEL@ },
        ),
{
}

/// Of the page events only a finished load re-arms, and it does what a
/// navigation event does.
pub proof fn lemma_page_event_rearms_on_finish(
    state: CoordinatorView,
    label: Seq<char>,
    payload: Seq<char>,
    event: PageEvent,
)
    ensures
        ({
            let attempt = AttemptView { label, payload, delay_ms: REARM_DELAY_MS };
            &&& event == PageEvent::Finished ==> state.page_event(label, payload, event) == (
                state.schedule(attempt),
                Some(attempt),
            )
            &&& event != PageEvent::Finished ==> state.page_event(label, payload, event) == (
                state,
                None::<AttemptView>,
            )
        }),
{
}

/// An attempt that fires after its window was closed is dropped, and a
/// navigation event that arrives after the window was closed is answered
/// like any other: its attempt is scheduled, and dropped when it fires.
pub proof fn lemma_closed_window_drops_attempts(state: CoordinatorView, attempt: AttemptView)
    requires
        state.wf(),
        state.pending.count(attempt) > 0,
    ensures
        state.close(attempt.label).firing(attempt) == FiringView::Dropped(
            ErrorView::WindowNotFound { label: attempt.label },
        ),
        state.close(attempt.label).schedule(attempt).firing(attempt) == FiringView::Dropped(
            ErrorView::WindowNotFound { label: attempt.label },
        ),
{
}

/// Firing an attempt takes exactly one attempt of that value off the list
/// if one waits, and nothing otherwise; no window appears or disappears.
pub proof fn lemma_fire_takes_one(state: CoordinatorView, attempt: AttemptView)
    ensures
        state.fire(attempt).windows == state.windows,
        state.pending.count(attempt) > 0 ==> state.fire(attempt).pending.count(attempt)
            == state.pending.count(attempt) - 1,
        state.pending.count(attempt) == 0 ==> state.fire(attempt).pending == state.pending,
        forall|other: AttemptView|
            other != attempt ==> state.fire(attempt).pending.count(other) == state.pending.count(
                other,
            ),
{
    if state.pending.count(attempt) == 0 {
        assert(state.pending.remove(attempt) =~= state.pending);
    }
}

/// Closing the secondary window is announced to the primary window exactly
/// when both exist; closing any other window is announced to nobody.
pub proof fn lemma_close_notice(state: CoordinatorView, label: Seq<char>)
    ensures
        state.close_notice(label).is_some() <==> label == SECONDARY_LABEL@ && state.has_window(
            SECONDARY_LABEL@,
        ) && state.has_window(PRIMARY_LABEL@),
        state.close_notice(PRIMARY_LABEL@).is_none(),
{
    lemma_labels_differ();
}

} // verus!
