use crate::action::{Action, ActionView, PRIMARY_LABEL, SECONDARY_LABEL};
use crate::attempt::{Attempt, INITIAL_DELAY_MS, REUSE_DELAY_MS};
use crate::coordinator::Coordinator;
use crate::error::{CoordinatorError, ErrorView};
use crate::event::DirectoryReport;
use crate::model::{report_view, result_view, OpenStepView};
use crate::window::WindowSpec;
use vstd::prelude::*;

verus! {

/// How a request to open the secondary window begins.
#[derive(Debug, PartialEq, Eq)]
pub enum OpenStep {
    /// The window is there. The shell centres, shows and focuses it, and
    /// arms a timer for the attempt, which was scheduled.
    Reused(Attempt),
    /// The window has to be created. The shell attends to the cache
    /// directory and reports to [`plan_secondary_window`].
    Create,
}

impl View for OpenStep {
    type V = OpenStepView;

    open spec fn view(&self) -> OpenStepView {
        match self {
            OpenStep::Reused(attempt) => OpenStepView::Reused(attempt@),
            OpenStep::Create => OpenStepView::Create,
        }
    }
}

/// Begins opening the secondary window with `script` as its payload.
/// A window that exists is reused and never doubled.
pub fn open_secondary_window(coordinator: &mut Coordinator, script: &str) -> (step: OpenStep)
    ensures
        (final(coordinator)@, step@) == old(coordinator)@.begin_open(script@),
        step is Reused ==> final(coordinator)@.windows.count(SECONDARY_LABEL@) == 1,
        old(coordinator)@.wf(),
        final(coordinator)@.wf(),
{
    if coordinator.has_window(SECONDARY_LABEL) {
        OpenStep::Reused(coordinator.schedule_injection(SECONDARY_LABEL, script, REUSE_DELAY_MS))
    } else {
        OpenStep::Create
    }
}

/// Decides what to build once the shell attended to the cache directory
/// and reports where it is, or how that failed.
pub fn plan_secondary_window(coordinator: &Coordinator, directory: DirectoryReport) -> (plan:
    Result<WindowSpec, CoordinatorError>)
    ensures
        result_view(plan) == coordinator@.plan_window(directory@),
        plan is Ok <==> directory is Ready && coordinator@.has_window(PRIMARY_LABEL@),
{
    match directory {
        DirectoryReport::Unresolved { reason } => Err(
            CoordinatorError::DataDirectoryUnresolved { reason },
        ),
        DirectoryReport::NotCreated { reason } => Err(
            CoordinatorError::DirectoryCreationFailed { reason },
        ),
        DirectoryReport::Ready { path } => {
            if coordinator.has_window(PRIMARY_LABEL) {
                Ok(WindowSpec::secondary(path))
            } else {
                Err(CoordinatorError::PrimaryWindowNotFound)
            }
        },
    }
}

/// Ends opening the secondary window once the shell tried to build it and
/// reports success, or the reason why it failed. On success the attempt
/// that was scheduled comes back for the shell to arm its timer.
pub fn finish_secondary_window(
    coordinator: &mut Coordinator,
    script: &str,
    built: Result<(), String>,
) -> (outcome: Result<Attempt, CoordinatorError>)
    ensures
        (final(coordinator)@, result_view(outcome)) == old(coordinator)@.finish_open(
            script@,
            report_view(built),
        ),
        outcome is Ok ==> final(coordinator)@.windows.count(SECONDARY_LABEL@) == 1,
        old(coordinator)@.wf(),
        final(coordinator)@.wf(),
{
    coordinator.one_window_per_label();
    match built {
        Err(reason) => Err(CoordinatorError::WindowCreationFailed { reason }),
        Ok(_) => {
            coordinator.register_window(SECONDARY_LABEL);
            Ok(coordinator.schedule_injection(SECONDARY_LABEL, script, INITIAL_DELAY_MS))
        },
    }
}

/// Asks for `script` to be evaluated at once in the window with
/// `window_label`; without such a window the request fails.
pub fn inject_script(coordinator: &Coordinator, window_label: &str, script: &str) -> (outcome:
    Result<Action, CoordinatorError>)
    ensures
        result_view(outcome) == coordinator@.injection(window_label@, script@),
        !coordinator@.has_window(window_label@) ==> result_view(outcome) == Err::<
            ActionView,
            ErrorView,
        >(ErrorView::WindowNotFound { label: window_label@ }),
{
    coordinator.inject(window_label, script)
}

/// Ends an injection once the shell tried the evaluation.
pub fn finish_injection(evaluated: Result<(), String>) -> (outcome: Result<(), CoordinatorError>)
    ensures
        match evaluated {
            Ok(_) => outcome is Ok,
            Err(reason) => result_view(outcome) == Err::<(), ErrorView>(
                ErrorView::EvaluationFailed { reason: reason@ },
            ),
        },
{
    match evaluated {
        Ok(_) => Ok(()),
        Err(reason) => Err(CoordinatorError::EvaluationFailed { reason }),
    }
}

/// Asks for `result` to be relayed from the secondary window to the
/// primary one; without a primary window the request fails, and nothing
/// changes in the coordinator either way.
pub fn relay_result(coordinator: &Coordinator, result: &str) -> (outcome: Result<
    Action,
    CoordinatorError,
>)
    ensures
        result_view(outcome) == coordinator@.relay_to_primary(result@),
        !coordinator@.has_window(PRIMARY_LABEL@) ==> result_view(outcome) == Err::<
            ActionView,
            ErrorView,
        >(ErrorView::PrimaryWindowNotFound),
{
    match coordinator.relay_result(SECONDARY_LABEL, PRIMARY_LABEL, result) {
        Ok(action) => Ok(action),
        Err(_) => Err(CoordinatorError::PrimaryWindowNotFound),
    }
}

/// Ends a relay once the shell tried to emit the event.
pub fn finish_relay(emitted: Result<(), String>) -> (outcome: Result<(), CoordinatorError>)
    ensures
        match emitted {
            Ok(_) => outcome is Ok,
            Err(reason) => result_view(outcome) == Err::<(), ErrorView>(
                ErrorView::EmissionFailed { reason: reason@ },
            ),
        },
{
    match emitted {
        Ok(_) => Ok(()),
        Err(reason) => Err(CoordinatorError::EmissionFailed { reason }),
    }
}

} // verus!
