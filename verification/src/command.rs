//! The vocabulary shared by the welcome module and its host: the events and
//! actions the module answers, and the commands it hands back.
//!
//! The module only decides. The host owns the windows, the stores and the
//! telemetry channel, and carries the commands out in the order given.

use vstd::prelude::*;

verus! {

/// Key of the persisted flag that records whether the editor has been
/// opened before.
pub const FIRST_OPEN: &'static str = "first_open";

/// A side of the workspace on which a dock can sit.
#[derive(Clone, Copy, Debug, PartialEq, Eq)]
pub enum DockPosition {
    Left,
    Bottom,
    Right,
}

/// A workspace action that the welcome module answers.
#[derive(Clone, Copy, Debug, PartialEq, Eq)]
pub enum Action {
    /// Open the welcome page in the active pane.
    Welcome,
    /// Show the multibuffer hints again from the start.
    ResetHints,
}

/// Something that happens to a welcome page after it was created.
#[derive(Clone, Copy, Debug, PartialEq, Eq)]
pub enum PageEvent {
    /// The "Choose a theme" button was clicked.
    ChooseThemeClicked,
    /// The settings store changed.
    SettingsChanged,
    /// The page was released by the host.
    Released,
}

/// One step of setting the module up when the application starts.
#[derive(Clone, Copy, Debug, PartialEq, Eq)]
pub enum Setup {
    /// Register the base keymap setting with the settings store.
    RegisterBaseKeymap,
    /// Register a handler for the action on every workspace as it is created.
    RegisterAction(Action),
}

/// One step that the host carries out on a workspace.
#[derive(Clone, Copy, Debug, PartialEq, Eq)]
pub enum WorkspaceCommand {
    /// Open or close the dock on the given side.
    ToggleDock(DockPosition),
    /// Create a welcome page for the workspace.
    CreatePage,
    /// Add the page to the active pane.
    AddPageToActivePane { destination_index: Option<usize>, focus_item: bool },
    /// Add the page to the center pane group.
    AddPageToCenter,
    /// Move keyboard focus to the page.
    FocusPage,
    /// Ask for the workspace to be drawn again.
    Notify,
    /// Persist a key-value pair.
    WriteKvp { key: &'static str, value: &'static str },
    /// Set the number of multibuffer hints already shown.
    SetMultibufferHintCount(usize),
}

/// One step that the host carries out for a welcome page.
#[derive(Clone, Copy, Debug, PartialEq, Eq)]
pub enum PageCommand {
    /// Report an application event to telemetry.
    ReportAppEvent(&'static str),
    /// Toggle the theme selector of the workspace with the given id. The
    /// workspace may be gone by then; the host lets that pass silently.
    ToggleThemeSelector { workspace: u64 },
    /// Ask for the page to be drawn again.
    Notify,
}

impl WorkspaceCommand {
    /// Whether the command acts on the welcome page, which must have been
    /// created by then.
    pub open spec fn needs_page(self) -> bool {
        self is AddPageToActivePane || self is AddPageToCenter || self is FocusPage
    }
}

/// Whether every command of the plan that acts on the welcome page comes
/// after one that creates it.
pub open spec fn creates_page_first(plan: Seq<WorkspaceCommand>) -> bool {
    forall|i: int|
        0 <= i < plan.len() && (#[trigger] plan[i]).needs_page() ==> exists|j: int|
            0 <= j < i && #[trigger] plan[j] == WorkspaceCommand::CreatePage
}

} // verus!
