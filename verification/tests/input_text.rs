use iced_webview::engines::text::choose_color_scheme;
use iced_webview::engines::input::{
    cursor_icon_to_interaction, held_buttons, iced_key_to_blitz_key, iced_keyboard_to_blitz,
    plan_mouse_event, pointer_button, CursorInteraction, CursorShape, EngineKey, KeyEventInput,
    KeyInput, ModifierState, MouseAction, MouseButtonInput, MouseEventInput, NamedKey,
    PointerButton, PointerButtons,
};
use iced_webview::engines::text::{
    blank_page_url, detect_color_scheme, document_base_url, name_selector, shown_url,
    ColorSchemeChoice,
};

fn mods(shift: bool, control: bool, alt: bool, logo: bool) -> ModifierState {
    ModifierState { shift, control, alt, logo }
}

#[test]
fn character_key_pressed_types_its_text() {
    let event = KeyEventInput::Pressed {
        key: KeyInput::Character("a".to_string()),
        modifiers: mods(true, false, true, true),
    };
    let out = iced_keyboard_to_blitz(&event).unwrap();
    assert!(matches!(&out.key, EngineKey::Character(s) if s == "a"));
    assert!(out.pressed);
    assert!(out.shift && !out.control && out.alt && out.meta);
    assert_eq!(out.text.as_deref(), Some("a"));
}

#[test]
fn key_released_types_nothing() {
    let event = KeyEventInput::Released {
        key: KeyInput::Character("a".to_string()),
        modifiers: mods(false, true, false, false),
    };
    let out = iced_keyboard_to_blitz(&event).unwrap();
    assert!(!out.pressed);
    assert!(out.control);
    assert!(out.text.is_none());
}

#[test]
fn space_bar_types_a_space() {
    let event = KeyEventInput::Pressed {
        key: KeyInput::Named(NamedKey::Space),
        modifiers: mods(false, false, false, false),
    };
    let out = iced_keyboard_to_blitz(&event).unwrap();
    assert!(matches!(&out.key, EngineKey::Character(s) if s == " "));
    assert_eq!(out.text.as_deref(), Some(" "));
}

#[test]
fn named_keys_map_to_their_namesakes() {
    assert!(matches!(iced_key_to_blitz_key(&KeyInput::Named(NamedKey::Enter)), Some(EngineKey::Enter)));
    assert!(matches!(iced_key_to_blitz_key(&KeyInput::Named(NamedKey::F12)), Some(EngineKey::F12)));
    assert!(matches!(
        iced_key_to_blitz_key(&KeyInput::Named(NamedKey::ArrowLeft)),
        Some(EngineKey::ArrowLeft)
    ));
    let event = KeyEventInput::Pressed {
        key: KeyInput::Named(NamedKey::Tab),
        modifiers: mods(false, false, false, false),
    };
    let out = iced_keyboard_to_blitz(&event).unwrap();
    assert!(matches!(out.key, EngineKey::Tab));
    assert!(out.text.is_none());
}

#[test]
fn unknown_keys_and_other_events_give_nothing() {
    assert!(iced_key_to_blitz_key(&KeyInput::Named(NamedKey::Other)).is_none());
    assert!(iced_key_to_blitz_key(&KeyInput::Unidentified).is_none());
    let event = KeyEventInput::Pressed {
        key: KeyInput::Unidentified,
        modifiers: mods(false, false, false, false),
    };
    assert!(iced_keyboard_to_blitz(&event).is_none());
    assert!(iced_keyboard_to_blitz(&KeyEventInput::Other).is_none());
}

#[test]
fn mouse_buttons_map() {
    assert_eq!(pointer_button(MouseButtonInput::Left), Some(PointerButton::Main));
    assert_eq!(pointer_button(MouseButtonInput::Right), Some(PointerButton::Secondary));
    assert_eq!(pointer_button(MouseButtonInput::Middle), Some(PointerButton::Auxiliary));
    assert_eq!(pointer_button(MouseButtonInput::Back), Some(PointerButton::Fourth));
    assert_eq!(pointer_button(MouseButtonInput::Forward), Some(PointerButton::Fifth));
    assert_eq!(pointer_button(MouseButtonInput::Other(9)), None);
    assert_eq!(held_buttons(PointerButton::Secondary), PointerButtons::Secondary);
}

#[test]
fn mouse_events_plan() {
    assert_eq!(plan_mouse_event(MouseEventInput::WheelScrolled), MouseAction::Scroll);
    assert_eq!(
        plan_mouse_event(MouseEventInput::ButtonPressed(MouseButtonInput::Left)),
        MouseAction::PointerDown(PointerButton::Main, PointerButtons::Primary)
    );
    assert_eq!(
        plan_mouse_event(MouseEventInput::ButtonReleased(MouseButtonInput::Forward)),
        MouseAction::PointerUp(PointerButton::Fifth)
    );
    assert_eq!(
        plan_mouse_event(MouseEventInput::ButtonPressed(MouseButtonInput::Other(4))),
        MouseAction::Ignore
    );
    assert_eq!(plan_mouse_event(MouseEventInput::CursorMoved), MouseAction::Hover);
    assert_eq!(plan_mouse_event(MouseEventInput::CursorLeft), MouseAction::Leave);
    assert_eq!(plan_mouse_event(MouseEventInput::Other), MouseAction::Ignore);
}

#[test]
fn cursor_icons_map() {
    assert_eq!(cursor_icon_to_interaction(CursorShape::Pointer), CursorInteraction::Pointer);
    assert_eq!(cursor_icon_to_interaction(CursorShape::NoDrop), CursorInteraction::NotAllowed);
    assert_eq!(
        cursor_icon_to_interaction(CursorShape::RowResize),
        CursorInteraction::ResizingVertically
    );
    assert_eq!(cursor_icon_to_interaction(CursorShape::ZoomOut), CursorInteraction::ZoomOut);
    assert_eq!(cursor_icon_to_interaction(CursorShape::Progress), CursorInteraction::Idle);
    assert_eq!(cursor_icon_to_interaction(CursorShape::Help), CursorInteraction::Idle);
}

#[test]
fn color_scheme_setting_wins() {
    assert_eq!(
        detect_color_scheme(Some("DARK".to_string()), None),
        ColorSchemeChoice::Dark
    );
    assert_eq!(
        detect_color_scheme(Some("light".to_string()), Some("Adwaita-dark".to_string())),
        ColorSchemeChoice::Light
    );
    assert_eq!(
        detect_color_scheme(Some("darkish".to_string()), None),
        ColorSchemeChoice::Light
    );
}

#[test]
fn color_scheme_from_theme_name() {
    assert_eq!(
        detect_color_scheme(None, Some("Adwaita:DARK".to_string())),
        ColorSchemeChoice::Dark
    );
    assert_eq!(detect_color_scheme(None, Some("Adwaita".to_string())), ColorSchemeChoice::Light);
    assert_eq!(detect_color_scheme(None, Some("dar".to_string())), ColorSchemeChoice::Light);
    assert_eq!(detect_color_scheme(None, None), ColorSchemeChoice::Light);
}

#[test]
fn selector_escapes_quotes_and_backslashes() {
    assert_eq!(name_selector("top"), "[name=\"top\"]");
    assert_eq!(name_selector("a\"b"), "[name=\"a\\\"b\"]");
    assert_eq!(name_selector("a\\b"), "[name=\"a\\\\b\"]");
    assert_eq!(name_selector(""), "[name=\"\"]");
    assert_eq!(name_selector("é\"\\"), "[name=\"é\\\"\\\\\"]");
}

#[test]
fn base_url_is_none_when_empty() {
    assert_eq!(document_base_url(""), None);
    assert_eq!(document_base_url("https://x.example/"), Some("https://x.example/".to_string()));
}

#[test]
fn shown_url_falls_back_to_blank_page() {
    assert_eq!(blank_page_url(), "about:blank");
    assert_eq!(shown_url(&String::new()), "about:blank");
    assert_eq!(shown_url(&"https://x.example/".to_string()), "https://x.example/");
}

#[test]
fn lower_case_scheme_choice() {
    assert_eq!(choose_color_scheme(Some("dark".to_string()), None), ColorSchemeChoice::Dark);
    assert_eq!(choose_color_scheme(Some("DARK".to_string()), None), ColorSchemeChoice::Light);
    assert_eq!(
        choose_color_scheme(None, Some("adwaita-dark".to_string())),
        ColorSchemeChoice::Dark
    );
    assert_eq!(choose_color_scheme(None, Some("Dark".to_string())), ColorSchemeChoice::Light);
    assert_eq!(choose_color_scheme(None, None), ColorSchemeChoice::Light);
}
