//! The welcome page itself: what it knows, what it shows as a workspace
//! item, and how it answers the events that reach it.

use vstd::prelude::*;
use crate::command::{PageCommand, PageEvent};
use crate::layout::{
    build_layout, buttons_view, logo_view, raises, tagline_view, welcome_layout, Element, Modifier,
};

verus! {

/// The welcome page. It refers to its workspace by the workspace's id, and
/// remembers whether its release is to be announced.
#[derive(Debug)]
pub struct WelcomePage {
    workspace: u64,
    announces_close: bool,
}

/// The mathematical value of a [`WelcomePage`].
pub ghost struct WelcomePageView {
    /// Id of the workspace that the page was opened in. The page does not
    /// keep the workspace alive.
    pub workspace: u64,
    /// Whether telemetry hears of it when the page is released.
    pub announces_close: bool,
}

impl View for WelcomePage {
    type V = WelcomePageView;

    closed spec fn view(&self) -> WelcomePageView {
        WelcomePageView {
            workspace: self.workspace,
            announces_close: self.announces_close,
        }
    }
}

/// The commands with which a page answers an event.
///
/// A click on the theme button is reported and then toggles the theme
/// selector of the page's workspace. A change of settings asks for a redraw.
/// A release is reported by a page that announces it, and passes in silence
/// otherwise.
pub open spec fn reaction(page: WelcomePageView, event: PageEvent) -> Seq<PageCommand> {
    match event {
        PageEvent::ChooseThemeClicked => seq![
            PageCommand::ReportAppEvent("welcome page: change theme"),
            PageCommand::ToggleThemeSelector { workspace: page.workspace },
        ],
        PageEvent::SettingsChanged => seq![PageCommand::Notify],
        PageEvent::Released => if page.announces_close {
            seq![PageCommand::ReportAppEvent("welcome page: close")]
        } else {
            Seq::empty()
        },
    }
}

/// The page has one thing to click, and it opens the theme selector: the
/// only event that a click on the drawn page raises is the click on the theme
/// button.
pub proof fn lemma_only_click_is_theme_button(event: PageEvent)
    ensures
        raises(welcome_layout(), event) <==> event == PageEvent::ChooseThemeClicked,
{
    let column = welcome_layout().children[0];
    let button = buttons_view().children[0];
    assert(!raises(logo_view(), event));
    assert(!raises(tagline_view().children[0], event));
    assert(!raises(tagline_view(), event));
    if event == PageEvent::ChooseThemeClicked {
        assert(button.modifiers[1] == Modifier::OnClick(event));
        assert(raises(button, event));
        assert(raises(buttons_view(), event));
        assert(raises(column.children[2], event));
        assert(raises(column, event));
    } else {
        assert(!raises(button, event));
        assert(!raises(buttons_view(), event));
        assert(!raises(column, event));
    }
}

/// Whatever is clicked on the drawn page, the page answers by toggling the
/// theme selector of its own workspace, after reporting the click.
pub proof fn lemma_click_toggles_theme_selector(page: WelcomePageView, event: PageEvent)
    requires
        raises(welcome_layout(), event),
    ensures
        reaction(page, event) == seq![
            PageCommand::ReportAppEvent("welcome page: change theme"),
            PageCommand::ToggleThemeSelector { workspace: page.workspace },
        ],
{
    lemma_only_click_is_theme_button(event);
}

/// A release is answered with reports to telemetry and nothing else: by
/// then the page has no window to draw in and no workspace to act on.
pub proof fn lemma_release_only_reports(page: WelcomePageView, i: int)
    requires
        0 <= i < reaction(page, PageEvent::Released).len(),
    ensures
        reaction(page, PageEvent::Released)[i] is ReportAppEvent,
{
}

impl WelcomePage {
    /// Creates the page for the workspace with the given id. The host gives
    /// it a focus handle and subscribes it to settings changes and to its own
    /// release.
    pub fn new(workspace: u64) -> (page: WelcomePage)
        ensures
            page@ == (WelcomePageView { workspace, announces_close: true }),
    {
        WelcomePage { workspace, announces_close: true }
    }

    /// The element tree that draws the page.
    pub fn render(&self) -> (tree: Element)
        ensures
            tree@ == welcome_layout(),
    {
        build_layout()
    }

    /// Answers an event with the commands for the host, in order.
    pub fn handle(&self, event: PageEvent) -> (plan: Vec<PageCommand>)
        ensures
            plan@ == reaction(self@, event),
    {
        match event {
            PageEvent::ChooseThemeClicked => vec![
                PageCommand::ReportAppEvent("welcome page: change theme"),
                PageCommand::ToggleThemeSelector { workspace: self.workspace },
            ],
            PageEvent::SettingsChanged => vec![PageCommand::Notify],
            PageEvent::Released => if self.announces_close {
                vec![PageCommand::ReportAppEvent("welcome page: close")]
            } else {
                Vec::new()
            },
        }
    }

    /// The text on the page's tab.
    pub fn tab_content_text(&self) -> (text: Option<&'static str>)
        ensures
            text == Some("Welcome to Zed!"),
    {
        Some("Welcome to Zed!")
    }

    /// The name under which telemetry knows the page.
    pub fn telemetry_event_text(&self) -> (text: Option<&'static str>)
        ensures
            text == Some("welcome page"),
    {
        Some("welcome page")
    }

    /// Whether the pane shows its toolbar while the page is active: never.
    pub fn show_toolbar(&self) -> (shown: bool)
        ensures
            !shown,
    {
        false
    }

    /// The page for the other half of a split pane. It belongs to the same
    /// workspace, and its release is not announced. A welcome page can always
    /// be split; the host gives the copy a focus handle of its own.
    pub fn clone_on_split(&self) -> (copy: Option<WelcomePage>)
        ensures
            copy matches Some(page) && page@ == (WelcomePageView {
                workspace: self@.workspace,
                announces_close: false,
            }),
    {
        Some(WelcomePage { workspace: self.workspace, announces_close: false })
    }
}

} // verus!
