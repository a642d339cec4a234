//! A description of what the welcome page draws: a tree of elements, each
//! with the styling applied to it, in the order in which it is applied.

use vstd::prelude::*;
use crate::command::PageEvent;

verus! {

/// A color, by role or by name; the host's theme resolves the roles.
#[derive(Clone, Copy, Debug, PartialEq, Eq)]
pub enum Color {
    /// The background color of an editor in the active theme.
    EditorBackground,
    White,
}

/// An extent along one axis.
#[derive(Clone, Copy, Debug, PartialEq, Eq)]
pub enum Length {
    /// A number of steps on the spacing scale, four steps to the rem.
    Units(u32),
    /// A number of pixels.
    Pixels(u32),
}

/// One styling step applied to an element.
#[derive(Clone, Copy, Debug, PartialEq, Eq)]
pub enum Modifier {
    /// Fill the parent in both directions.
    SizeFull,
    /// Fill the width of the parent.
    FullWidth,
    Width(Length),
    Height(Length),
    /// The gap between children, in steps on the spacing scale.
    Gap(u32),
    /// Center horizontally by automatic margins left and right.
    MarginXAuto,
    /// Center the children along the main axis.
    JustifyCenter,
    Background(Color),
    TextColor(Color),
    /// Follow the focus handle of the page that is drawn.
    TrackFocus,
    /// Raise the event when the element is clicked.
    OnClick(PageEvent),
}

/// What kind of element a node is.
#[derive(Clone, Copy, Debug, PartialEq, Eq)]
pub enum ElementKind {
    /// A container that lays its children out in a row.
    HFlex,
    /// A container that lays its children out in a column.
    VFlex,
    /// A vector image loaded from the given asset path.
    Svg { path: &'static str },
    /// A line of text.
    Label { text: &'static str },
    /// A button with an identifier and a caption.
    Button { id: &'static str, label: &'static str },
}

/// A node of the element tree.
#[derive(Debug, PartialEq, Eq)]
pub struct Element {
    pub kind: ElementKind,
    pub modifiers: Vec<Modifier>,
    pub children: Vec<Element>,
}

/// The mathematical value of an [`Element`].
pub ghost struct ElementView {
    pub kind: ElementKind,
    pub modifiers: Seq<Modifier>,
    pub children: Seq<ElementView>,
}

impl View for Element {
    type V = ElementView;

    open spec fn view(&self) -> ElementView
        decreases self,
    {
        ElementView {
            kind: self.kind,
            modifiers: self.modifiers@,
            children: Seq::new(
                self.children@.len(),
                |i: int|
                    if 0 <= i < self.children.len() {
                        self.children[i]@
                    } else {
                        arbitrary()
                    },
            ),
        }
    }
}

/// Whether a click somewhere in the tree raises the event: on the element
/// itself or on one below it.
pub open spec fn raises(element: ElementView, event: PageEvent) -> bool
    decreases element,
{
    ||| element.modifiers.contains(Modifier::OnClick(event))
    ||| exists|i: int|
        #![trigger element.children[i]]
        0 <= i < element.children.len() && raises(element.children[i], event)
}

/// An element without children.
pub open spec fn leaf(kind: ElementKind, modifiers: Seq<Modifier>) -> ElementView {
    ElementView { kind, modifiers, children: Seq::empty() }
}

/// The logo: a white vector image, 96 pixels square, centered.
pub open spec fn logo_view() -> ElementView {
    leaf(
        ElementKind::Svg { path: "icons/logo_96.svg" },
        seq![
            Modifier::TextColor(Color::White),
            Modifier::Width(Length::Pixels(96)),
            Modifier::Height(Length::Pixels(96)),
            Modifier::MarginXAuto,
        ],
    )
}

/// The tagline, centered in a row of its own.
pub open spec fn tagline_view() -> ElementView {
    ElementView {
        kind: ElementKind::HFlex,
        modifiers: seq![Modifier::JustifyCenter],
        children: seq![
            leaf(ElementKind::Label { text: "Code at the speed of thought" }, Seq::empty()),
        ],
    }
}

/// The column of buttons; it holds the one that opens the theme selector.
pub open spec fn buttons_view() -> ElementView {
    ElementView {
        kind: ElementKind::VFlex,
        modifiers: seq![Modifier::Gap(2)],
        children: seq![
            leaf(
                ElementKind::Button { id: "choose-theme", label: "Choose a theme" },
                seq![Modifier::FullWidth, Modifier::OnClick(PageEvent::ChooseThemeClicked)],
            ),
        ],
    }
}

/// The whole page: a full-size row on the editor's background that follows
/// the page's focus handle, and in it one centered column with the logo, the
/// tagline and the buttons, from top to bottom.
pub open spec fn welcome_layout() -> ElementView {
    ElementView {
        kind: ElementKind::HFlex,
        modifiers: seq![
            Modifier::SizeFull,
            Modifier::Background(Color::EditorBackground),
            Modifier::TrackFocus,
        ],
        children: seq![
            ElementView {
                kind: ElementKind::VFlex,
                modifiers: seq![
                    Modifier::Width(Length::Units(96)),
                    Modifier::Gap(4),
                    Modifier::MarginXAuto,
                ],
                children: seq![logo_view(), tagline_view(), buttons_view()],
            },
        ],
    }
}

/// Builds the logo.
pub(crate) fn logo() -> (element: Element)
    ensures
        element@ == logo_view(),
{
    let element = Element {
        kind: ElementKind::Svg { path: "icons/logo_96.svg" },
        modifiers: vec![
            Modifier::TextColor(Color::White),
            Modifier::Width(Length::Pixels(96)),
            Modifier::Height(Length::Pixels(96)),
            Modifier::MarginXAuto,
        ],
        children: Vec::new(),
    };
    assert(element@.children =~= Seq::empty());
    element
}

/// Builds the row with the tagline.
pub(crate) fn tagline() -> (element: Element)
    ensures
        element@ == tagline_view(),
{
    let label = Element {
        kind: ElementKind::Label { text: "Code at the speed of thought" },
        modifiers: Vec::new(),
        children: Vec::new(),
    };
    assert(label@.children =~= Seq::empty());
    let element = Element {
        kind: ElementKind::HFlex,
        modifiers: vec![Modifier::JustifyCenter],
        children: vec![label],
    };
    assert(element@.modifiers =~= tagline_view().modifiers);
    assert(element@.children =~= tagline_view().children);
    element
}

/// Builds the column of buttons.
pub(crate) fn buttons() -> (element: Element)
    ensures
        element@ == buttons_view(),
{
    let button = Element {
        kind: ElementKind::Button { id: "choose-theme", label: "Choose a theme" },
        modifiers: vec![Modifier::FullWidth, Modifier::OnClick(PageEvent::ChooseThemeClicked)],
        children: Vec::new(),
    };
    assert(button@.children =~= Seq::empty());
    let element = Element {
        kind: ElementKind::VFlex,
        modifiers: vec![Modifier::Gap(2)],
        children: vec![button],
    };
    assert(element@.modifiers =~= buttons_view().modifiers);
    assert(element@.children =~= buttons_view().children);
    element
}

/// Builds the whole page.
pub(crate) fn build_layout() -> (element: Element)
    ensures
        element@ == welcome_layout(),
{
    let column = Element {
        kind: ElementKind::VFlex,
        modifiers: vec![Modifier::Width(Length::Units(96)), Modifier::Gap(4), Modifier::MarginXAuto],
        children: vec![logo(), tagline(), buttons()],
    };
    assert(column@.children =~= seq![logo_view(), tagline_view(), buttons_view()]);
    let element = Element {
        kind: ElementKind::HFlex,
        modifiers: vec![
            Modifier::SizeFull,
            Modifier::Background(Color::EditorBackground),
            Modifier::TrackFocus,
        ],
        children: vec![column],
    };
    assert(element@.children =~= welcome_layout().children);
    element
}

} // verus!
