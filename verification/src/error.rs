use vstd::prelude::*;

verus! {

/// Why a command could not be carried out. No kind is fatal to the host.
#[derive(Debug, PartialEq, Eq)]
pub enum CoordinatorError {
    /// No window carries `label`, which the caller named.
    WindowNotFound { label: String },
    /// The primary window, which the command needs, is not there.
    PrimaryWindowNotFound,
    /// The webview refused or failed to evaluate a script.
    EvaluationFailed { reason: String },
    /// The application's data directory could not be resolved.
    DataDirectoryUnresolved { reason: String },
    /// The session cache directory could not be created.
    DirectoryCreationFailed { reason: String },
    /// The windowing runtime could not build the window.
    WindowCreationFailed { reason: String },
    /// The windowing runtime could not deliver an event.
    EmissionFailed { reason: String },
}

/// The mathematical value of a [`CoordinatorError`].
pub enum ErrorView {
    WindowNotFound { label: Seq<char> },
    PrimaryWindowNotFound,
    EvaluationFailed { reason: Seq<char> },
    DataDirectoryUnresolved { reason: Seq<char> },
    DirectoryCreationFailed { reason: Seq<char> },
    WindowCreationFailed { reason: Seq<char> },
    EmissionFailed { reason: Seq<char> },
}

impl ErrorView {
    /// The text shown to the caller of a command that failed with this
    /// error. A missing window is named by its label, or as the primary
    /// window; a failure of a directory is introduced by a fixed phrase;
    /// a failure of the runtime is given in the runtime's own words.
    pub open spec fn message(self) -> Seq<char> {
        match self {
            ErrorView::WindowNotFound { label } => "找不到标签为 '"@ + label + "' 的窗口"@,
            ErrorView::PrimaryWindowNotFound => "找不到主窗口"@,
            ErrorView::EvaluationFailed { reason } => reason,
            ErrorView::DataDirectoryUnresolved { reason } => "无法获取应用数据目录: "@ + reason,
            ErrorView::DirectoryCreationFailed { reason } => "创建缓存目录失败: "@ + reason,
            ErrorView::WindowCreationFailed { reason } => reason,
            ErrorView::EmissionFailed { reason } => reason,
        }
    }
}

impl View for CoordinatorError {
    type V = ErrorView;

    open spec fn view(&self) -> ErrorView {
        match self {
            CoordinatorError::WindowNotFound { label } => ErrorView::WindowNotFound {
                label: label@,
            },
            CoordinatorError::PrimaryWindowNotFound => ErrorView::PrimaryWindowNotFound,
            CoordinatorError::EvaluationFailed { reason } => ErrorView::EvaluationFailed {
                reason: reason@,
            },
            CoordinatorError::DataDirectoryUnresolved {
                reason,
            } => ErrorView::DataDirectoryUnresolved { reason: reason@ },
            CoordinatorError::DirectoryCreationFailed {
                reason,
            } => ErrorView::DirectoryCreationFailed { reason: reason@ },
            CoordinatorError::WindowCreationFailed { reason } => ErrorView::WindowCreationFailed {
                reason: reason@,
            },
            CoordinatorError::EmissionFailed { reason } => ErrorView::EmissionFailed {
                reason: reason@,
            },
        }
    }
}

impl CoordinatorError {
    /// Renders the error as the message a command hands back to its caller.
    pub fn message(&self) -> (text: String)
        ensures
            text@ == self@.message(),
    {
        match self {
            CoordinatorError::WindowNotFound { label } => {
                let mut text = "找不到标签为 '".to_owned();
                text.append(label.as_str());
                text.append("' 的窗口");
                text
            },
            CoordinatorError::PrimaryWindowNotFound => "找不到主窗口".to_owned(),
            CoordinatorError::EvaluationFailed { reason } => reason.clone(),
            CoordinatorError::DataDirectoryUnresolved { reason } => {
                let mut text = "无法获取应用数据目录: ".to_owned();
                text.append(reason.as_str());
                text
            },
            CoordinatorError::DirectoryCreationFailed { reason } => {
                let mut text = "创建缓存目录失败: ".to_owned();
                text.append(reason.as_str());
                text
            },
            CoordinatorError::WindowCreationFailed { reason } => reason.clone(),
            CoordinatorError::EmissionFailed { reason } => reason.clone(),
        }
    }
}

} // verus!
