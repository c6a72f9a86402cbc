use vstd::prelude::*;

verus! {

/// Label of the window the shell starts with.
pub const PRIMARY_LABEL: &'static str = "main";

/// Label of the window that shows the external page.
pub const SECONDARY_LABEL: &'static str = "secondary";

/// Event that carries a relayed result to its target window.
pub const RESULT_EVENT: &'static str = "result-from-gemini";

/// Event that tells the primary window that the secondary one was closed.
pub const CLOSED_EVENT: &'static str = "gemini-window-closed";

/// Outside work that the coordinator asks the shell to perform.
#[derive(Debug, PartialEq, Eq)]
pub enum Action {
    /// Evaluate `script` in the window named `label`.
    Evaluate { label: String, script: String },
    /// Emit `event` with the string `body` to the window named `target`,
    /// on behalf of the window named `source`.
    Emit { source: String, target: String, event: String, body: String },
    /// Emit `event` without a body to the window named `target`.
    Notify { target: String, event: String },
}

/// The mathematical value of an [`Action`].
pub enum ActionView {
    Evaluate { label: Seq<char>, script: Seq<char> },
    Emit { source: Seq<char>, target: Seq<char>, event: Seq<char>, body: Seq<char> },
    Notify { target: Seq<char>, event: Seq<char> },
}

impl View for Action {
    type V = ActionView;

    open spec fn view(&self) -> ActionView {
        match self {
            Action::Evaluate { label, script } => ActionView::Evaluate {
                label: label@,
                script: script@,
            },
            Action::Emit { source, target, event, body } => ActionView::Emit {
                source: source@,
                target: target@,
                event: event@,
                body: body@,
            },
            Action::Notify { target, event } => ActionView::Notify {
                target: target@,
                event: event@,
            },
        }
    }
}

/// The primary and the secondary window carry different labels.
pub proof fn lemma_labels_differ()
    ensures
        PRIMARY_LABEL@ != SECONDARY_LABEL@,
{
    reveal_strlit("main");
    reveal_strlit("secondary");
    assert(PRIMARY_LABEL@.len() == 4);
    assert(SECONDARY_LABEL@.len() == 9);
}

} // verus!
