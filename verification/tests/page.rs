use welcome::{
    Color, Element, ElementKind, Length, Modifier, PageCommand, PageEvent, WelcomePage,
};

fn leaf(kind: ElementKind, modifiers: Vec<Modifier>) -> Element {
    Element { kind, modifiers, children: Vec::new() }
}

fn expected_layout() -> Element {
    Element {
        kind: ElementKind::HFlex,
        modifiers: vec![
            Modifier::SizeFull,
            Modifier::Background(Color::EditorBackground),
            Modifier::TrackFocus,
        ],
        children: vec![Element {
            kind: ElementKind::VFlex,
            modifiers: vec![
                Modifier::Width(Length::Units(96)),
                Modifier::Gap(4),
                Modifier::MarginXAuto,
            ],
            children: vec![
                leaf(
                    ElementKind::Svg { path: "icons/logo_96.svg" },
                    vec![
                        Modifier::TextColor(Color::White),
                        Modifier::Width(Length::Pixels(96)),
                        Modifier::Height(Length::Pixels(96)),
                        Modifier::MarginXAuto,
                    ],
                ),
                Element {
                    kind: ElementKind::HFlex,
                    modifiers: vec![Modifier::JustifyCenter],
                    children: vec![leaf(
                        ElementKind::Label { text: "Code at the speed of thought" },
                        vec![],
                    )],
                },
                Element {
                    kind: ElementKind::VFlex,
                    modifiers: vec![Modifier::Gap(2)],
                    children: vec![leaf(
                        ElementKind::Button { id: "choose-theme", label: "Choose a theme" },
                        vec![
                            Modifier::FullWidth,
                            Modifier::OnClick(PageEvent::ChooseThemeClicked),
                        ],
                    )],
                },
            ],
        }],
    }
}

fn clicks(element: &Element, found: &mut Vec<PageEvent>) {
    for modifier in &element.modifiers {
        if let Modifier::OnClick(event) = modifier {
            found.push(*event);
        }
    }
    for child in &element.children {
        clicks(child, found);
    }
}

#[test]
fn render_gives_the_whole_tree() {
    assert_eq!(WelcomePage::new(7).render(), expected_layout());
}

#[test]
fn render_is_the_same_for_every_page() {
    let page = WelcomePage::new(1);
    let copy = page.clone_on_split().unwrap();
    assert_eq!(page.render(), WelcomePage::new(u64::MAX).render());
    assert_eq!(page.render(), copy.render());
}

#[test]
fn root_fills_the_pane_on_the_editor_background_and_tracks_focus() {
    let tree = WelcomePage::new(1).render();
    assert_eq!(tree.kind, ElementKind::HFlex);
    assert_eq!(
        tree.modifiers,
        vec![
            Modifier::SizeFull,
            Modifier::Background(Color::EditorBackground),
            Modifier::TrackFocus,
        ]
    );
    assert_eq!(tree.children.len(), 1);
}

#[test]
fn column_holds_logo_tagline_and_buttons_in_that_order() {
    let tree = WelcomePage::new(1).render();
    let column = &tree.children[0];
    assert_eq!(column.kind, ElementKind::VFlex);
    assert_eq!(
        column.modifiers,
        vec![Modifier::Width(Length::Units(96)), Modifier::Gap(4), Modifier::MarginXAuto]
    );
    let kinds: Vec<ElementKind> = column.children.iter().map(|child| child.kind).collect();
    assert_eq!(
        kinds,
        vec![
            ElementKind::Svg { path: "icons/logo_96.svg" },
            ElementKind::HFlex,
            ElementKind::VFlex,
        ]
    );
}

#[test]
fn logo_is_white_and_ninety_six_pixels_square() {
    let tree = WelcomePage::new(1).render();
    let logo = &tree.children[0].children[0];
    assert_eq!(logo.kind, ElementKind::Svg { path: "icons/logo_96.svg" });
    assert_eq!(
        logo.modifiers,
        vec![
            Modifier::TextColor(Color::White),
            Modifier::Width(Length::Pixels(96)),
            Modifier::Height(Length::Pixels(96)),
            Modifier::MarginXAuto,
        ]
    );
    assert!(logo.children.is_empty());
}

#[test]
fn tagline_is_centered() {
    let tree = WelcomePage::new(1).render();
    let row = &tree.children[0].children[1];
    assert_eq!(row.modifiers, vec![Modifier::JustifyCenter]);
    assert_eq!(row.children.len(), 1);
    assert_eq!(row.children[0].kind, ElementKind::Label { text: "Code at the speed of thought" });
    assert!(row.children[0].modifiers.is_empty());
}

#[test]
fn button_raises_the_theme_click() {
    let tree = WelcomePage::new(1).render();
    let buttons = &tree.children[0].children[2];
    assert_eq!(buttons.modifiers, vec![Modifier::Gap(2)]);
    assert_eq!(buttons.children.len(), 1);
    let button = &buttons.children[0];
    assert_eq!(button.kind, ElementKind::Button { id: "choose-theme", label: "Choose a theme" });
    assert_eq!(
        button.modifiers,
        vec![Modifier::FullWidth, Modifier::OnClick(PageEvent::ChooseThemeClicked)]
    );
}

#[test]
fn the_theme_button_is_the_only_thing_to_click() {
    let mut found = Vec::new();
    clicks(&WelcomePage::new(9).render(), &mut found);
    assert_eq!(found, vec![PageEvent::ChooseThemeClicked]);
}

#[test]
fn every_click_on_the_page_toggles_the_selector_of_its_workspace() {
    let page = WelcomePage::new(9);
    let mut found = Vec::new();
    clicks(&page.render(), &mut found);
    for event in found {
        assert_eq!(
            page.handle(event),
            vec![
                PageCommand::ReportAppEvent("welcome page: change theme"),
                PageCommand::ToggleThemeSelector { workspace: 9 },
            ]
        );
    }
}

#[test]
fn theme_click_is_reported_then_toggles_the_selector() {
    assert_eq!(
        WelcomePage::new(7).handle(PageEvent::ChooseThemeClicked),
        vec![
            PageCommand::ReportAppEvent("welcome page: change theme"),
            PageCommand::ToggleThemeSelector { workspace: 7 },
        ]
    );
    assert_eq!(
        WelcomePage::new(u64::MAX).handle(PageEvent::ChooseThemeClicked)[1],
        PageCommand::ToggleThemeSelector { workspace: u64::MAX }
    );
}

#[test]
fn settings_change_asks_for_a_redraw() {
    assert_eq!(WelcomePage::new(7).handle(PageEvent::SettingsChanged), vec![PageCommand::Notify]);
}

#[test]
fn release_of_a_new_page_is_reported() {
    assert_eq!(
        WelcomePage::new(7).handle(PageEvent::Released),
        vec![PageCommand::ReportAppEvent("welcome page: close")]
    );
}

#[test]
fn tab_text_telemetry_name_and_toolbar() {
    let page = WelcomePage::new(7);
    assert_eq!(page.tab_content_text(), Some("Welcome to Zed!"));
    assert_eq!(page.telemetry_event_text(), Some("welcome page"));
    assert!(!page.show_toolbar());
}

#[test]
fn split_copy_shares_the_workspace() {
    let page = WelcomePage::new(7);
    let copy = page.clone_on_split().expect("a welcome page can be split");
    assert_eq!(
        copy.handle(PageEvent::ChooseThemeClicked),
        page.handle(PageEvent::ChooseThemeClicked)
    );
    assert_eq!(copy.tab_content_text(), page.tab_content_text());
    assert_eq!(copy.render(), expected_layout());
}

#[test]
fn release_of_a_split_copy_passes_in_silence() {
    let page = WelcomePage::new(7);
    let copy = page.clone_on_split().unwrap();
    assert_eq!(copy.handle(PageEvent::Released), Vec::<PageCommand>::new());
    assert_eq!(copy.handle(PageEvent::SettingsChanged), vec![PageCommand::Notify]);
    assert_eq!(page.handle(PageEvent::Released).len(), 1);
}

#[test]
fn release_is_answered_with_reports_only() {
    let page = WelcomePage::new(7);
    let copy = page.clone_on_split().unwrap();
    for plan in [page.handle(PageEvent::Released), copy.handle(PageEvent::Released)] {
        assert!(plan.iter().all(|command| matches!(command, PageCommand::ReportAppEvent(_))));
    }
}

#[test]
fn split_of_a_split_copy_stays_silent() {
    let second = WelcomePage::new(7).clone_on_split().unwrap().clone_on_split().unwrap();
    assert!(second.handle(PageEvent::Released).is_empty());
    assert_eq!(
        second.handle(PageEvent::ChooseThemeClicked)[1],
        PageCommand::ToggleThemeSelector { workspace: 7 }
    );
}
