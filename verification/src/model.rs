use crate::action::{ActionView, CLOSED_EVENT, PRIMARY_LABEL, RESULT_EVENT, SECONDARY_LABEL};
use crate::attempt::{AttemptView, INITIAL_DELAY_MS, REARM_DELAY_MS, REUSE_DELAY_MS};
use crate::error::ErrorView;
use crate::event::{DirectoryReportView, PageEvent};
use crate::window::{secondary_window, WindowSpecView};
use vstd::multiset::*;
use vstd::prelude::*;

verus! {

/// The coordinator as a mathematical value: which labels carry a window, and
/// which injection attempts wait for their timer. Both are bags: the order
/// in which windows were opened or attempts were scheduled has no meaning,
/// and equal attempts may wait side by side.
pub struct CoordinatorView {
    pub windows: Multiset<Seq<char>>,
    pub pending: Multiset<AttemptView>,
}

/// How a request to open the secondary window begins.
pub enum OpenStepView {
    /// The window is there: it is brought to the front and this attempt
    /// was scheduled.
    Reused(AttemptView),
    /// The window has to be created.
    Create,
}

/// One change of the coordinator's state.
pub enum Step {
    /// A window with this label was created.
    Register(Seq<char>),
    /// The window with this label was closed.
    Close(Seq<char>),
    /// This attempt was scheduled.
    Schedule(AttemptView),
    /// The timer of this attempt ran out.
    Fire(AttemptView),
}

/// What firing an attempt leads to.
pub enum FiringView {
    /// The window is there: the payload is to be evaluated in it.
    Evaluate(ActionView),
    /// The window is gone: the attempt is discarded with this failure.
    Dropped(ErrorView),
    /// No such attempt was waiting.
    NotPending,
}

impl CoordinatorView {
    /// No window, nothing scheduled.
    pub open spec fn empty() -> CoordinatorView {
        CoordinatorView { windows: Multiset::empty(), pending: Multiset::empty() }
    }

    /// At most one window exists per label.
    pub open spec fn wf(self) -> bool {
        forall|label: Seq<char>| self.windows.count(label) <= 1
    }

    /// Whether a window carries `label`.
    pub open spec fn has_window(self, label: Seq<char>) -> bool {
        self.windows.count(label) > 0
    }

    /// The state once a window with `label` exists: a label that is taken
    /// is not taken twice.
    pub open spec fn register(self, label: Seq<char>) -> CoordinatorView {
        if self.has_window(label) {
            self
        } else {
            CoordinatorView { windows: self.windows.insert(label), pending: self.pending }
        }
    }

    /// The state once the window with `label` is gone. Attempts that wait
    /// for it keep waiting: they fail when they fire.
    pub open spec fn close(self, label: Seq<char>) -> CoordinatorView {
        CoordinatorView { windows: self.windows.remove(label), pending: self.pending }
    }

    /// The state with one more attempt waiting.
    pub open spec fn schedule(self, attempt: AttemptView) -> CoordinatorView {
        CoordinatorView { windows: self.windows, pending: self.pending.insert(attempt) }
    }

    /// The state with one occurrence of `attempt` no longer waiting.
    pub open spec fn fire(self, attempt: AttemptView) -> CoordinatorView {
        CoordinatorView { windows: self.windows, pending: self.pending.remove(attempt) }
    }

    /// The state after one step.
    pub open spec fn step(self, step: Step) -> CoordinatorView {
        match step {
            Step::Register(label) => self.register(label),
            Step::Close(label) => self.close(label),
            Step::Schedule(attempt) => self.schedule(attempt),
            Step::Fire(attempt) => self.fire(attempt),
        }
    }

    /// The state after a run of steps, first to last.
    pub open spec fn run(self, steps: Seq<Step>) -> CoordinatorView
        decreases steps.len(),
    {
        if steps.len() == 0 {
            self
        } else {
            self.run(steps.drop_last()).step(steps.last())
        }
    }

    /// What firing `attempt` leads to in this state.
    pub open spec fn firing(self, attempt: AttemptView) -> FiringView {
        if self.pending.count(attempt) == 0 {
            FiringView::NotPending
        } else if self.has_window(attempt.label) {
            FiringView::Evaluate(
                ActionView::Evaluate { label: attempt.label, script: attempt.payload },
            )
        } else {
            FiringView::Dropped(ErrorView::WindowNotFound { label: attempt.label })
        }
    }

    /// What a request to evaluate `script` at once in `label` leads to.
    pub open spec fn injection(self, label: Seq<char>, script: Seq<char>) -> Result<
        ActionView,
        ErrorView,
    > {
        if self.has_window(label) {
            Ok(ActionView::Evaluate { label, script })
        } else {
            Err(ErrorView::WindowNotFound { label })
        }
    }

    /// What relaying `result` from `source` to `target` leads to.
    pub open spec fn relay(self, source: Seq<char>, target: Seq<char>, result: Seq<char>) -> Result<
        ActionView,
        ErrorView,
    > {
        if self.has_window(target) {
            Ok(ActionView::Emit { source, target, event: RESULT_EVENT@, body: result })
        } else {
            Err(ErrorView::WindowNotFound { label: target })
        }
    }

    /// How opening the secondary window with `script` begins: a window that
    /// is there is reused, and `script` is scheduled for it with the reuse
    /// delay; otherwise nothing changes and the window has to be created.
    pub open spec fn begin_open(self, script: Seq<char>) -> (CoordinatorView, OpenStepView) {
        if self.has_window(SECONDARY_LABEL@) {
            let attempt = AttemptView {
                label: SECONDARY_LABEL@,
                payload: script,
                delay_ms: REUSE_DELAY_MS,
            };
            (self.schedule(attempt), OpenStepView::Reused(attempt))
        } else {
            (self, OpenStepView::Create)
        }
    }

    /// What to build once the cache directory was attended to: either
    /// failure there ends the request; so does a missing primary window,
    /// which the secondary window needs as its parent.
    pub open spec fn plan_window(self, directory: DirectoryReportView) -> Result<
        WindowSpecView,
        ErrorView,
    > {
        match directory {
            DirectoryReportView::Unresolved { reason } => Err(
                ErrorView::DataDirectoryUnresolved { reason },
            ),
            DirectoryReportView::NotCreated { reason } => Err(
                ErrorView::DirectoryCreationFailed { reason },
            ),
            DirectoryReportView::Ready { path } => if self.has_window(PRIMARY_LABEL@) {
                Ok(secondary_window(path))
            } else {
                Err(ErrorView::PrimaryWindowNotFound)
            },
        }
    }

    /// How opening the secondary window ends once the shell tried to build
    /// it: a window that was built is recorded, and `script` is scheduled
    /// for it with the initial delay; a failure changes nothing.
    pub open spec fn finish_open(self, script: Seq<char>, built: Result<(), Seq<char>>) -> (
        CoordinatorView,
        Result<AttemptView, ErrorView>,
    ) {
        match built {
            Err(reason) => (self, Err(ErrorView::WindowCreationFailed { reason })),
            Ok(_) => {
                let attempt = AttemptView {
                    label: SECONDARY_LABEL@,
                    payload: script,
                    delay_ms: INITIAL_DELAY_MS,
                };
                (self.register(SECONDARY_LABEL@).schedule(attempt), Ok(attempt))
            },
        }
    }

    /// What relaying `result` from the secondary window to the primary one
    /// leads to.
    pub open spec fn relay_to_primary(self, result: Seq<char>) -> Result<ActionView, ErrorView> {
        if self.has_window(PRIMARY_LABEL@) {
            Ok(
                ActionView::Emit {
                    source: SECONDARY_LABEL@,
                    target: PRIMARY_LABEL@,
                    event: RESULT_EVENT@,
                    body: result,
                },
            )
        } else {
            Err(ErrorView::PrimaryWindowNotFound)
        }
    }

    /// What a page event in the window with `label` leads to: a page that
    /// finished loading re-arms the injection of `payload`, with the re-arm
    /// delay; any other event changes nothing.
    pub open spec fn page_event(self, label: Seq<char>, payload: Seq<char>, event: PageEvent) -> (
        CoordinatorView,
        Option<AttemptView>,
    ) {
        match event {
            PageEvent::Finished => {
                let attempt = AttemptView { label, payload, delay_ms: REARM_DELAY_MS };
                (self.schedule(attempt), Some(attempt))
            },
            PageEvent::Started => (self, None),
        }
    }

    /// Whom to tell that the window with `label` is closing: the primary
    /// window, if it is there and the closing window is the secondary one.
    pub open spec fn close_notice(self, label: Seq<char>) -> Option<ActionView> {
        if label == SECONDARY_LABEL@ && self.has_window(label) && self.has_window(PRIMARY_LABEL@) {
            Some(ActionView::Notify { target: PRIMARY_LABEL@, event: CLOSED_EVENT@ })
        } else {
            None
        }
    }
}

/// The view of what the shell reports of a piece of outside work: the
/// value that came of it, or the reason why it failed.
pub open spec fn report_view<T: View>(report: Result<T, String>) -> Result<T::V, Seq<char>> {
    match report {
        Ok(value) => Ok(value@),
        Err(reason) => Err(reason@),
    }
}

/// The view of an optional value that has a view.
pub open spec fn option_view<T: View>(option: Option<T>) -> Option<T::V> {
    match option {
        Some(value) => Some(value@),
        None => None,
    }
}

/// The view of a result whose two sides have views.
pub open spec fn result_view<T: View, E: View>(r: Result<T, E>) -> Result<T::V, E::V> {
    match r {
        Ok(t) => Ok(t@),
        Err(e) => Err(e@),
    }
}

} // verus!
