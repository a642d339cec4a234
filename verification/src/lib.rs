//! The welcome page of a code editor, as decisions over plain values.
//!
//! The page greets a first-time user with a logo, a tagline and a button that
//! opens the theme selector. Nothing here draws, stores or sends anything: the
//! functions say what is to be drawn and done, and the host application does
//! it.

pub mod command;
pub mod layout;
pub mod page;
pub mod startup;

pub use command::{
    Action, DockPosition, PageCommand, PageEvent, Setup, WorkspaceCommand, FIRST_OPEN,
};
pub use layout::{Color, Element, ElementKind, Length, Modifier};
pub use page::WelcomePage;
pub use startup::{init, on_action, show_welcome_view};
