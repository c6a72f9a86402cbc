use crate::action::{Action, CLOSED_EVENT, PRIMARY_LABEL, RESULT_EVENT, SECONDARY_LABEL};
use crate::attempt::{Attempt, AttemptView, REARM_DELAY_MS};
use crate::error::CoordinatorError;
use crate::event::PageEvent;
use crate::model::{option_view, result_view, CoordinatorView, FiringView};
use vstd::multiset::*;
use vstd::prelude::*;
use vstd::seq_lib::*;

verus! {

/// What became of an attempt whose timer ran out.
#[derive(Debug, PartialEq, Eq)]
pub enum Firing {
    /// The window is there: perform this evaluation.
    Evaluate(Action),
    /// The window is gone: nothing is evaluated, the failure is only logged.
    Dropped(CoordinatorError),
    /// No such attempt was waiting.
    NotPending,
}

impl View for Firing {
    type V = FiringView;

    open spec fn view(&self) -> FiringView {
        match self {
            Firing::Evaluate(action) => FiringView::Evaluate(action@),
            Firing::Dropped(error) => FiringView::Dropped(error@),
            Firing::NotPending => FiringView::NotPending,
        }
    }
}

/// The labels that a list of windows carries.
spec fn labels(windows: Seq<String>) -> Seq<Seq<char>> {
    windows.map_values(|label: String| label@)
}

/// The values of a list of attempts.
spec fn attempts(pending: Seq<Attempt>) -> Seq<AttemptView> {
    pending.map_values(|attempt: Attempt| attempt@)
}

/// Keeps track of the windows that exist and of the injection attempts
/// that wait for their timer, and decides what the shell has to do.
#[derive(Debug)]
pub struct Coordinator {
    windows: Vec<String>,
    pending: Vec<Attempt>,
}

impl View for Coordinator {
    type V = CoordinatorView;

    closed spec fn view(&self) -> CoordinatorView {
        CoordinatorView {
            windows: labels(self.windows@).to_multiset(),
            pending: attempts(self.pending@).to_multiset(),
        }
    }
}

impl Coordinator {
    /// No two windows in the list carry the same label.
    #[verifier::type_invariant]
    spec fn distinct_labels(self) -> bool {
        labels(self.windows@).no_duplicates()
    }

    /// Takes the list of windows out and leaves an empty one in its place,
    /// for the caller to change it and put it back.
    fn take_windows(&mut self) -> (windows: Vec<String>)
        ensures
            windows@ == old(self).windows@,
            final(self).windows@ == Seq::<String>::empty(),
            final(self).pending == old(self).pending,
    {
        let mut windows: Vec<String> = Vec::new();
        proof {
            use_type_invariant(&*self);
            assert(labels(windows@) =~= Seq::empty());
        }
        core::mem::swap(&mut self.windows, &mut windows);
        windows
    }

    /// Takes the list of attempts out and leaves an empty one in its place,
    /// for the caller to change it and put it back.
    fn take_pending(&mut self) -> (pending: Vec<Attempt>)
        ensures
            pending@ == old(self).pending@,
            final(self).pending@ == Seq::<Attempt>::empty(),
            final(self).windows == old(self).windows,
    {
        let mut pending: Vec<Attempt> = Vec::new();
        proof {
            use_type_invariant(&*self);
        }
        core::mem::swap(&mut self.pending, &mut pending);
        pending
    }

    /// A coordinator that knows of no window and of no attempt.
    pub fn new() -> (coordinator: Coordinator)
        ensures
            coordinator@ == CoordinatorView::empty(),
            coordinator@.wf(),
    {
        let windows: Vec<String> = Vec::new();
        proof {
            assert(labels(windows@) =~= Seq::empty());
        }
        let coordinator = Coordinator { windows, pending: Vec::new() };
        proof {
            assert(labels(coordinator.windows@) =~= Seq::empty());
            assert(attempts(coordinator.pending@) =~= Seq::empty());
            broadcast use group_to_multiset_ensures;
            assert(coordinator@.windows =~= Multiset::empty());
            assert(coordinator@.pending =~= Multiset::empty());
        }
        coordinator
    }

    /// Shows a caller what holds of every coordinator: at most one window
    /// exists per label. Nothing is computed.
    pub fn one_window_per_label(&self)
        ensures
            self@.wf(),
    {
        proof {
            use_type_invariant(self);
            lemma_distinct_labels(self.windows@);
        }
    }

    /// Whether a window carries `label`.
    pub fn has_window(&self, label: &str) -> (found: bool)
        ensures
            found == self@.has_window(label@),
            self@.wf(),
    {
        proof {
            use_type_invariant(self);
            lemma_distinct_labels(self.windows@);
        }
        let wanted = label.to_owned();
        self.position(&wanted).is_some()
    }

    /// How many windows carry `label`: one or none in every state that
    /// the operations of this type lead to.
    pub fn window_count(&self, label: &str) -> (count: usize)
        ensures
            count == self@.windows.count(label@),
            self@.wf(),
    {
        proof {
            use_type_invariant(self);
            lemma_distinct_labels(self.windows@);
        }
        let wanted = label.to_owned();
        let mut count: usize = 0;
        let mut i: usize = 0;
        proof {
            assert(labels(self.windows@).take(0) =~= Seq::empty());
            Seq::<Seq<char>>::empty().to_multiset_ensures();
            assert(Seq::<Seq<char>>::empty().to_multiset().len() == 0);
        }
        while i < self.windows.len()
            invariant
                i <= self.windows.len(),
                wanted@ == label@,
                count <= i,
                count == labels(self.windows@).take(i as int).to_multiset().count(label@),
            decreases self.windows.len() - i,
        {
            proof {
                let seen = labels(self.windows@).take(i as int);
                assert(labels(self.windows@).take(i + 1) =~= seen.push(self.windows[i as int]@));
                seen.to_multiset_ensures();
            }
            if self.windows[i].eq(&wanted) {
                count += 1;
            }
            i += 1;
        }
        proof {
            assert(labels(self.windows@).take(i as int) =~= labels(self.windows@));
        }
        count
    }

    /// How many attempts wait for their timer.
    pub fn pending_count(&self) -> (count: usize)
        ensures
            count == self@.pending.len(),
            self@.wf(),
    {
        proof {
            use_type_invariant(self);
            lemma_distinct_labels(self.windows@);
            attempts(self.pending@).to_multiset_ensures();
        }
        self.pending.len()
    }

    /// Whether an attempt of this value waits for its timer.
    pub fn is_pending(&self, attempt: &Attempt) -> (waiting: bool)
        ensures
            waiting == (self@.pending.count(attempt@) > 0),
            self@.wf(),
    {
        proof {
            use_type_invariant(self);
            lemma_distinct_labels(self.windows@);
        }
        self.pending_position(attempt).is_some()
    }

    /// Records that the shell created a window with `label`. A label that
    /// is taken is not recorded twice; the answer tells whether it was free.
    pub fn register_window(&mut self, label: &str) -> (added: bool)
        ensures
            final(self)@ == old(self)@.register(label@),
            added == !old(self)@.has_window(label@),
            old(self)@.wf(),
            final(self)@.wf(),
    {
        proof {
            use_type_invariant(&*self);
            lemma_distinct_labels(self.windows@);
        }
        let wanted = label.to_owned();
        if self.position(&wanted).is_some() {
            return false;
        }
        let mut windows = self.take_windows();
        let ghost before = windows@;
        windows.push(wanted);
        proof {
            assert(labels(windows@) =~= labels(before).push(label@));
            labels(before).to_multiset_ensures();
            lemma_distinct_labels(windows@);
        }
        self.windows = windows;
        true
    }

    /// Records that the window with `label` is closing, and says whom to
    /// tell: closing the secondary window is announced to the primary one
    /// if that is still there.
    pub fn close_window(&mut self, label: &str) -> (notice: Option<Action>)
        ensures
            final(self)@ == old(self)@.close(label@),
            option_view(notice) == old(self)@.close_notice(label@),
            old(self)@.wf(),
            final(self)@.wf(),
    {
        proof {
            use_type_invariant(&*self);
            lemma_distinct_labels(self.windows@);
        }
        let wanted = label.to_owned();
        let secondary = SECONDARY_LABEL.to_owned();
        let primary = PRIMARY_LABEL.to_owned();
        match self.position(&wanted) {
            None => {
                assert(self@.windows.remove(label@) =~= self@.windows);
                None
            },
            Some(i) => {
                let announce = wanted.eq(&secondary) && self.position(&primary).is_some();
                let mut windows = self.take_windows();
                let ghost before = windows@;
                windows.remove(i);
                proof {
                    assert(labels(windows@) =~= labels(before).remove(i as int));
                    labels(before).to_multiset_ensures();
                    assert(labels(before)[i as int] == label@);
                    assert forall|a: int, b: int|
                        0 <= a < labels(windows@).len() && 0 <= b < labels(windows@).len() && a
                            != b implies labels(windows@)[a] != labels(windows@)[b] by {
                        let a0 = if a < i { a } else { a + 1 };
                        let b0 = if b < i { b } else { b + 1 };
                        assert(labels(windows@)[a] == labels(before)[a0]);
                        assert(labels(windows@)[b] == labels(before)[b0]);
                    }
                    lemma_distinct_labels(windows@);
                }
                self.windows = windows;
                if announce {
                    Some(Action::Notify { target: primary, event: CLOSED_EVENT.to_owned() })
                } else {
                    None
                }
            },
        }
    }

    /// Schedules one evaluation of `payload` in the window with `label`,
    /// due after `delay_ms`. Nothing is evaluated here and no window is
    /// looked up: the attempt is handed back for the shell to arm a timer
    /// that fires it.
    pub fn schedule_injection(&mut self, label: &str, payload: &str, delay_ms: u64) -> (attempt:
        Attempt)
        ensures
            attempt@ == (AttemptView { label: label@, payload: payload@, delay_ms }),
            final(self)@ == old(self)@.schedule(attempt@),
            old(self)@.wf(),
            final(self)@.wf(),
    {
        proof {
            use_type_invariant(&*self);
            lemma_distinct_labels(self.windows@);
        }
        let attempt = Attempt::new(label, payload, delay_ms);
        let mut pending = self.take_pending();
        let ghost before = pending@;
        pending.push(attempt.duplicate());
        proof {
            assert(attempts(pending@) =~= attempts(before).push(attempt@));
            attempts(before).to_multiset_ensures();
        }
        self.pending = pending;
        attempt
    }

    /// Reacts to a navigation, a reload or a finished page load in the
    /// window with `label`: one more attempt is scheduled, with the re-arm
    /// delay, whether or not the window is still there.
    pub fn on_navigation_event(&mut self, label: &str, payload: &str) -> (attempt: Attempt)
        ensures
            attempt@ == (AttemptView { label: label@, payload: payload@, delay_ms: REARM_DELAY_MS }),
            final(self)@ == old(self)@.schedule(attempt@),
            old(self)@.wf(),
            final(self)@.wf(),
    {
        self.schedule_injection(label, payload, REARM_DELAY_MS)
    }

    /// Reacts to what the window with `label` reports of its page: a page
    /// that finished loading re-arms the injection of `payload`; any other
    /// event changes nothing and schedules nothing.
    pub fn on_page_event(&mut self, label: &str, payload: &str, event: PageEvent) -> (attempt:
        Option<Attempt>)
        ensures
            (final(self)@, option_view(attempt)) == old(self)@.page_event(label@, payload@, event),
            event == PageEvent::Finished ==> final(self)@ == old(self)@.schedule(
                AttemptView { label: label@, payload: payload@, delay_ms: REARM_DELAY_MS },
            ),
            event != PageEvent::Finished ==> final(self)@ == old(self)@ && attempt.is_none(),
            old(self)@.wf(),
            final(self)@.wf(),
    {
        proof {
            use_type_invariant(&*self);
            lemma_distinct_labels(self.windows@);
        }
        match event {
            PageEvent::Finished => Some(self.on_navigation_event(label, payload)),
            PageEvent::Started => None,
        }
    }

    /// Where in the list an attempt of this value waits, if anywhere.
    fn pending_position(&self, attempt: &Attempt) -> (found: Option<usize>)
        ensures
            match found {
                Some(i) => i < self.pending.len() && self.pending[i as int]@ == attempt@,
                None => self@.pending.count(attempt@) == 0,
            },
            found.is_some() == (self@.pending.count(attempt@) > 0),
    {
        let mut i: usize = 0;
        while i < self.pending.len()
            invariant
                i <= self.pending.len(),
                forall|j: int| 0 <= j < i ==> self.pending[j]@ != attempt@,
            decreases self.pending.len() - i,
        {
            if self.pending[i].same_as(attempt) {
                proof {
                    attempts(self.pending@).to_multiset_ensures();
                    assert(attempts(self.pending@)[i as int] == attempt@);
                }
                return Some(i);
            }
            i += 1;
        }
        proof {
            attempts(self.pending@).to_multiset_ensures();
            assert(!attempts(self.pending@).contains(attempt@));
        }
        None
    }

    /// The timer of `attempt` ran out. One waiting attempt of that value is
    /// taken off the list; its payload is to be evaluated if its window is
    /// there, and it is dropped if the window is gone.
    pub fn fire(&mut self, attempt: &Attempt) -> (firing: Firing)
        ensures
            firing@ == old(self)@.firing(attempt@),
            final(self)@ == old(self)@.fire(attempt@),
            old(self)@.wf(),
            final(self)@.wf(),
    {
        proof {
            use_type_invariant(&*self);
            lemma_distinct_labels(self.windows@);
        }
        match self.pending_position(attempt) {
            None => {
                assert(self@.pending.remove(attempt@) =~= self@.pending);
                Firing::NotPending
            },
            Some(i) => {
                let mut pending = self.take_pending();
                let ghost before = pending@;
                let fired = pending.remove(i);
                proof {
                    assert(attempts(pending@) =~= attempts(before).remove(i as int));
                    attempts(before).to_multiset_ensures();
                    assert(attempts(before)[i as int] == attempt@);
                    assert(attempts(before).contains(attempt@));
                }
                self.pending = pending;
                if self.position(&fired.label).is_some() {
                    Firing::Evaluate(Action::Evaluate { label: fired.label, script: fired.payload })
                } else {
                    Firing::Dropped(CoordinatorError::WindowNotFound { label: fired.label })
                }
            },
        }
    }

    /// Looks up the window with label `target_label` and, if it is there,
    /// asks for the result event to be emitted to it with `result` as its
    /// body. Nothing changes in the coordinator either way.
    pub fn relay_result(&self, source_label: &str, target_label: &str, result: &str) -> (outcome:
        Result<Action, CoordinatorError>)
        ensures
            result_view(outcome) == self@.relay(source_label@, target_label@, result@),
            self@.wf(),
    {
        proof {
            use_type_invariant(self);
            lemma_distinct_labels(self.windows@);
        }
        let target = target_label.to_owned();
        if self.position(&target).is_some() {
            Ok(
                Action::Emit {
                    source: source_label.to_owned(),
                    target,
                    event: RESULT_EVENT.to_owned(),
                    body: result.to_owned(),
                },
            )
        } else {
            Err(CoordinatorError::WindowNotFound { label: target })
        }
    }

    /// Asks for `script` to be evaluated at once in the window with
    /// `label`, if it is there. Nothing changes in the coordinator.
    pub fn inject(&self, label: &str, script: &str) -> (outcome: Result<Action, CoordinatorError>)
        ensures
            result_view(outcome) == self@.injection(label@, script@),
            self@.wf(),
    {
        proof {
            use_type_invariant(self);
            lemma_distinct_labels(self.windows@);
        }
        let wanted = label.to_owned();
        if self.position(&wanted).is_some() {
            Ok(Action::Evaluate { label: wanted, script: script.to_owned() })
        } else {
            Err(CoordinatorError::WindowNotFound { label: wanted })
        }
    }

    /// Where in the list the window with this label stands, if anywhere.
    fn position(&self, wanted: &String) -> (found: Option<usize>)
        ensures
            match found {
                Some(i) => i < self.windows.len() && self.windows[i as int]@ == wanted@,
                None => !labels(self.windows@).contains(wanted@),
            },
            found.is_some() == self@.has_window(wanted@),
    {
        let mut i: usize = 0;
        while i < self.windows.len()
            invariant
                i <= self.windows.len(),
                forall|j: int| 0 <= j < i ==> self.windows[j]@ != wanted@,
            decreases self.windows.len() - i,
        {
            if self.windows[i].eq(wanted) {
                proof {
                    assert(labels(self.windows@)[i as int] == wanted@);
                    labels(self.windows@).to_multiset_ensures();
                }
                return Some(i);
            }
            i += 1;
        }
        proof {
            labels(self.windows@).to_multiset_ensures();
        }
        None
    }
}

/// A list of distinct labels holds each label at most once.
proof fn lemma_distinct_labels(windows: Seq<String>)
    requires
        labels(windows).no_duplicates(),
    ensures
        forall|label: Seq<char>| labels(windows).to_multiset().count(label) <= 1,
{
    labels(windows).lemma_multiset_has_no_duplicates();
    assert forall|label: Seq<char>| labels(windows).to_multiset().count(label) <= 1 by {
        if labels(windows).to_multiset().count(label) > 0 {
            assert(labels(windows).to_multiset().contains(label));
        }
    }
}

} // verus!
