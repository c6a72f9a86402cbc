use vstd::prelude::*;

verus! {

/// What a window reports of the page it shows.
#[derive(Debug, Clone, Copy, PartialEq, Eq)]
pub enum PageEvent {
    /// The page began to load.
    Started,
    /// The page finished loading.
    Finished,
}

/// What the shell reports of the session cache directory.
#[derive(Debug, PartialEq, Eq)]
pub enum DirectoryReport {
    /// The directory exists at this path.
    Ready { path: String },
    /// The application's data directory could not be resolved.
    Unresolved { reason: String },
    /// The directory is missing and could not be created.
    NotCreated { reason: String },
}

/// The mathematical value of a [`DirectoryReport`].
pub enum DirectoryReportView {
    Ready { path: Seq<char> },
    Unresolved { reason: Seq<char> },
    NotCreated { reason: Seq<char> },
}

impl View for DirectoryReport {
    type V = DirectoryReportView;

    open spec fn view(&self) -> DirectoryReportView {
        match self {
            DirectoryReport::Ready { path } => DirectoryReportView::Ready { path: path@ },
            DirectoryReport::Unresolved { reason } => DirectoryReportView::Unresolved {
                reason: reason@,
            },
            DirectoryReport::NotCreated { reason } => DirectoryReportView::NotCreated {
                reason: reason@,
            },
        }
    }
}

} // verus!
