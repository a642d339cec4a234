//! What the welcome module does when the application starts, when one of
//! its workspace actions fires, and when the first-run screen is asked for.

use vstd::prelude::*;
use crate::command::{
    creates_page_first, Action, DockPosition, Setup, WorkspaceCommand, FIRST_OPEN,
};

verus! {

/// The steps that set the welcome module up.
pub open spec fn init_plan() -> Seq<Setup> {
    seq![
        Setup::RegisterBaseKeymap,
        Setup::RegisterAction(Action::Welcome),
        Setup::RegisterAction(Action::ResetHints),
    ]
}

/// The commands that answer a workspace action: `Welcome` opens a new page
/// in the active pane, at the pane's own choice of position and with focus;
/// `ResetHints` starts the count of multibuffer hints from zero.
pub open spec fn action_plan(action: Action) -> Seq<WorkspaceCommand> {
    match action {
        Action::Welcome => seq![
            WorkspaceCommand::CreatePage,
            WorkspaceCommand::AddPageToActivePane { destination_index: None, focus_item: true },
        ],
        Action::ResetHints => seq![WorkspaceCommand::SetMultibufferHintCount(0)],
    }
}

/// The commands that turn a freshly opened workspace into the first-run
/// screen: the left dock is toggled, a new page goes to the center and gets
/// the focus, the workspace is drawn again, and the flag under
/// [`FIRST_OPEN`] is set to `"false"`.
pub open spec fn welcome_view_plan() -> Seq<WorkspaceCommand> {
    seq![
        WorkspaceCommand::ToggleDock(DockPosition::Left),
        WorkspaceCommand::CreatePage,
        WorkspaceCommand::AddPageToCenter,
        WorkspaceCommand::FocusPage,
        WorkspaceCommand::Notify,
        WorkspaceCommand::WriteKvp { key: FIRST_OPEN, value: "false" },
    ]
}

/// No plan for a workspace touches the welcome page before creating it, so
/// the host never looks for a page that is not there.
pub proof fn lemma_plans_create_page_first(action: Action)
    ensures
        creates_page_first(action_plan(action)),
        creates_page_first(welcome_view_plan()),
{
    assert(action_plan(Action::Welcome)[0] == WorkspaceCommand::CreatePage);
    assert(welcome_view_plan()[1] == WorkspaceCommand::CreatePage);
}

/// Sets the module up: the base keymap setting is registered, and every
/// workspace created from now on answers `Welcome` and `ResetHints`.
pub fn init() -> (plan: Vec<Setup>)
    ensures
        plan@ == init_plan(),
{
    vec![
        Setup::RegisterBaseKeymap,
        Setup::RegisterAction(Action::Welcome),
        Setup::RegisterAction(Action::ResetHints),
    ]
}

/// Answers a workspace action registered by [`init`].
pub fn on_action(action: Action) -> (plan: Vec<WorkspaceCommand>)
    ensures
        plan@ == action_plan(action),
{
    match action {
        Action::Welcome => vec![
            WorkspaceCommand::CreatePage,
            WorkspaceCommand::AddPageToActivePane { destination_index: None, focus_item: true },
        ],
        Action::ResetHints => vec![WorkspaceCommand::SetMultibufferHintCount(0)],
    }
}

/// Shows the welcome page in a new workspace. The host opens the workspace
/// with default options and runs the returned commands on it, in order.
pub fn show_welcome_view() -> (plan: Vec<WorkspaceCommand>)
    ensures
        plan@ == welcome_view_plan(),
{
    vec![
        WorkspaceCommand::ToggleDock(DockPosition::Left),
        WorkspaceCommand::CreatePage,
        WorkspaceCommand::AddPageToCenter,
        WorkspaceCommand::FocusPage,
        WorkspaceCommand::Notify,
        WorkspaceCommand::WriteKvp { key: FIRST_OPEN, value: "false" },
    ]
}

} // verus!
