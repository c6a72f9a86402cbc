use vstd::prelude::*;

verus! {

/// Delay before the payload is evaluated in a window that was just created.
pub const INITIAL_DELAY_MS: u64 = 5000;

/// Delay before the payload is evaluated in a window that was reused.
pub const REUSE_DELAY_MS: u64 = 1000;

/// Delay before the payload is evaluated again after a page event.
pub const REARM_DELAY_MS: u64 = 3000;

/// A scheduled evaluation of `payload` in the window named `label`,
/// due once `delay_ms` milliseconds have passed.
#[derive(Debug, PartialEq, Eq)]
pub struct Attempt {
    pub label: String,
    pub payload: String,
    pub delay_ms: u64,
}

/// The mathematical value of an [`Attempt`].
pub struct AttemptView {
    pub label: Seq<char>,
    pub payload: Seq<char>,
    pub delay_ms: u64,
}

impl View for Attempt {
    type V = AttemptView;

    open spec fn view(&self) -> AttemptView {
        AttemptView { label: self.label@, payload: self.payload@, delay_ms: self.delay_ms }
    }
}

impl Attempt {
    /// Builds the attempt that evaluates `payload` in `label` after `delay_ms`.
    pub fn new(label: &str, payload: &str, delay_ms: u64) -> (a: Attempt)
        ensures
            a@ == (AttemptView { label: label@, payload: payload@, delay_ms }),
    {
        Attempt { label: label.to_owned(), payload: payload.to_owned(), delay_ms }
    }

    /// A second attempt of the same value.
    pub fn duplicate(&self) -> (copy: Attempt)
        ensures
            copy@ == self@,
    {
        Attempt {
            label: self.label.clone(),
            payload: self.payload.clone(),
            delay_ms: self.delay_ms,
        }
    }

    /// Whether two attempts name the same window, payload and delay.
    pub fn same_as(&self, other: &Attempt) -> (same: bool)
        ensures
            same == (self@ == other@),
    {
        self.label.eq(&other.label) && self.payload.eq(&other.payload) && self.delay_ms
            == other.delay_ms
    }
}

} // verus!
