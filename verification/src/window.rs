use crate::action::{PRIMARY_LABEL, SECONDARY_LABEL};
use vstd::prelude::*;

verus! {

/// Page that the secondary window loads.
pub const SECONDARY_URL: &'static str = "https://gemini.google.com/";

/// Title of the secondary window.
pub const SECONDARY_TITLE: &'static str = "Gemini";

/// Inner width of the secondary window, in logical pixels.
pub const SECONDARY_WIDTH: u32 = 1000;

/// Inner height of the secondary window, in logical pixels.
pub const SECONDARY_HEIGHT: u32 = 800;

/// Script that the secondary window runs before any page script.
pub const SECONDARY_INIT_SCRIPT: &'static str =
    "localStorage.setItem('_test_key_', '_test_value_');";

/// User agent that the secondary window presents.
pub const SECONDARY_USER_AGENT: &'static str =
    "Mozilla/5.0 (Windows NT 10.0; Win64; x64) AppleWebKit/537.36 (KHTML, like Gecko) Chrome/123.0.0.0 Safari/537.36";

/// Directory, below the application's data directory, that keeps the
/// secondary window's session data.
pub const CACHE_DIRECTORY: &'static str = "gemini_cache";

/// Everything the shell needs to build a window.
#[derive(Debug, PartialEq, Eq)]
pub struct WindowSpec {
    pub label: String,
    pub url: String,
    pub title: String,
    pub width: u32,
    pub height: u32,
    pub centered: bool,
    pub data_directory: String,
    pub initialization_script: String,
    pub user_agent: String,
    pub parent: String,
    pub clipboard_access: bool,
    pub incognito: bool,
    pub transparent: bool,
}

/// The mathematical value of a [`WindowSpec`].
pub struct WindowSpecView {
    pub label: Seq<char>,
    pub url: Seq<char>,
    pub title: Seq<char>,
    pub width: u32,
    pub height: u32,
    pub centered: bool,
    pub data_directory: Seq<char>,
    pub initialization_script: Seq<char>,
    pub user_agent: Seq<char>,
    pub parent: Seq<char>,
    pub clipboard_access: bool,
    pub incognito: bool,
    pub transparent: bool,
}

impl View for WindowSpec {
    type V = WindowSpecView;

    open spec fn view(&self) -> WindowSpecView {
        WindowSpecView {
            label: self.label@,
            url: self.url@,
            title: self.title@,
            width: self.width,
            height: self.height,
            centered: self.centered,
            data_directory: self.data_directory@,
            initialization_script: self.initialization_script@,
            user_agent: self.user_agent@,
            parent: self.parent@,
            clipboard_access: self.clipboard_access,
            incognito: self.incognito,
            transparent: self.transparent,
        }
    }
}

/// The secondary window: a centred child of the primary window that keeps
/// its session in `data_directory`, may use the clipboard, and is neither
/// private nor transparent.
pub open spec fn secondary_window(data_directory: Seq<char>) -> WindowSpecView {
    WindowSpecView {
        label: SECONDARY_LABEL@,
        url: SECONDARY_URL@,
        title: SECONDARY_TITLE@,
        width: SECONDARY_WIDTH,
        height: SECONDARY_HEIGHT,
        centered: true,
        data_directory,
        initialization_script: SECONDARY_INIT_SCRIPT@,
        user_agent: SECONDARY_USER_AGENT@,
        parent: PRIMARY_LABEL@,
        clipboard_access: true,
        incognito: false,
        transparent: false,
    }
}

impl WindowSpec {
    /// Describes the secondary window, with its session kept in
    /// `data_directory`.
    pub fn secondary(data_directory: String) -> (spec: WindowSpec)
        ensures
            spec@ == secondary_window(data_directory@),
    {
        WindowSpec {
            label: SECONDARY_LABEL.to_owned(),
            url: SECONDARY_URL.to_owned(),
            title: SECONDARY_TITLE.to_owned(),
            width: SECONDARY_WIDTH,
            height: SECONDARY_HEIGHT,
            centered: true,
            data_directory,
            initialization_script: SECONDARY_INIT_SCRIPT.to_owned(),
            user_agent: SECONDARY_USER_AGENT.to_owned(),
            parent: PRIMARY_LABEL.to_owned(),
            clipboard_access: true,
            incognito: false,
            transparent: false,
        }
    }
}

} // verus!
