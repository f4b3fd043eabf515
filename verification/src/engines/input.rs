//! Mapping of the widget's keyboard, mouse and cursor values into the engine's, over plain
//! enums of the library that mirror the outside ones one for one.
use vstd::prelude::*;

verus! {

/// The named keys that the engine understands, and `Other` for every other named key.
#[derive(Clone, Copy, Debug, PartialEq, Eq, Structural)]
pub enum NamedKey {
    Enter,
    Tab,
    Space,
    Backspace,
    Delete,
    Escape,
    Insert,
    CapsLock,
    NumLock,
    ScrollLock,
    Pause,
    PrintScreen,
    ContextMenu,
    ArrowDown,
    ArrowLeft,
    ArrowRight,
    ArrowUp,
    End,
    Home,
    PageDown,
    PageUp,
    F1,
    F2,
    F3,
    F4,
    F5,
    F6,
    F7,
    F8,
    F9,
    F10,
    F11,
    F12,
    Other,
}

/// A logical key as the widget reports it.
#[derive(Debug)]
pub enum KeyInput {
    /// A named key.
    Named(NamedKey),
    /// The text that the key types.
    Character(String),
    /// A key that could not be identified.
    Unidentified,
}

/// The modifier keys held during a key event.
#[derive(Clone, Copy, Debug, PartialEq, Eq, Structural)]
pub struct ModifierState {
    pub shift: bool,
    pub control: bool,
    pub alt: bool,
    pub logo: bool,
}

/// A keyboard event as the widget reports it.
#[derive(Debug)]
pub enum KeyEventInput {
    /// A key went down.
    Pressed { key: KeyInput, modifiers: ModifierState },
    /// A key went up.
    Released { key: KeyInput, modifiers: ModifierState },
    /// Any other keyboard event (such as a change of the modifiers alone).
    Other,
}

/// A logical key as the document receives it.
#[derive(Debug)]
pub enum EngineKey {
    Character(String),
    Enter,
    Tab,
    Backspace,
    Delete,
    Escape,
    Insert,
    CapsLock,
    NumLock,
    ScrollLock,
    Pause,
    PrintScreen,
    ContextMenu,
    ArrowDown,
    ArrowLeft,
    ArrowRight,
    ArrowUp,
    End,
    Home,
    PageDown,
    PageUp,
    F1,
    F2,
    F3,
    F4,
    F5,
    F6,
    F7,
    F8,
    F9,
    F10,
    F11,
    F12,
}

/// A key event as the document receives it.
#[derive(Debug)]
pub struct EngineKeyEvent {
    /// The key.
    pub key: EngineKey,
    /// Whether the key went down (a key-down event) rather than up (a key-up event).
    pub pressed: bool,
    /// The modifiers: shift, control, alt, and meta for the logo key.
    pub shift: bool,
    pub control: bool,
    pub alt: bool,
    pub meta: bool,
    /// The text typed, for a character key going down.
    pub text: Option<String>,
}

/// The document's key for a named key that is not typed as text, if it understands it.
pub open spec fn named_key_spec(named: NamedKey) -> Option<EngineKey> {
    match named {
        NamedKey::Enter => Some(EngineKey::Enter),
        NamedKey::Tab => Some(EngineKey::Tab),
        NamedKey::Backspace => Some(EngineKey::Backspace),
        NamedKey::Delete => Some(EngineKey::Delete),
        NamedKey::Escape => Some(EngineKey::Escape),
        NamedKey::Insert => Some(EngineKey::Insert),
        NamedKey::CapsLock => Some(EngineKey::CapsLock),
        NamedKey::NumLock => Some(EngineKey::NumLock),
        NamedKey::ScrollLock => Some(EngineKey::ScrollLock),
        NamedKey::Pause => Some(EngineKey::Pause),
        NamedKey::PrintScreen => Some(EngineKey::PrintScreen),
        NamedKey::ContextMenu => Some(EngineKey::ContextMenu),
        NamedKey::ArrowDown => Some(EngineKey::ArrowDown),
        NamedKey::ArrowLeft => Some(EngineKey::ArrowLeft),
        NamedKey::ArrowRight => Some(EngineKey::ArrowRight),
        NamedKey::ArrowUp => Some(EngineKey::ArrowUp),
        NamedKey::End => Some(EngineKey::End),
        NamedKey::Home => Some(EngineKey::Home),
        NamedKey::PageDown => Some(EngineKey::PageDown),
        NamedKey::PageUp => Some(EngineKey::PageUp),
        NamedKey::F1 => Some(EngineKey::F1),
        NamedKey::F2 => Some(EngineKey::F2),
        NamedKey::F3 => Some(EngineKey::F3),
        NamedKey::F4 => Some(EngineKey::F4),
        NamedKey::F5 => Some(EngineKey::F5),
        NamedKey::F6 => Some(EngineKey::F6),
        NamedKey::F7 => Some(EngineKey::F7),
        NamedKey::F8 => Some(EngineKey::F8),
        NamedKey::F9 => Some(EngineKey::F9),
        NamedKey::F10 => Some(EngineKey::F10),
        NamedKey::F11 => Some(EngineKey::F11),
        NamedKey::F12 => Some(EngineKey::F12),
        NamedKey::Space => None,
        NamedKey::Other => None,
    }
}

/// Law: every named key that is not typed as text reaches the document as the key of the same
/// name (Backspace as Backspace, Delete as Delete, the arrows as the same arrows, and so on),
/// and no other named key reaches it through this table.
pub proof fn law_named_keys_keep_their_names()
    ensures
        named_key_spec(NamedKey::Enter) matches Some(EngineKey::Enter),
        named_key_spec(NamedKey::Tab) matches Some(EngineKey::Tab),
        named_key_spec(NamedKey::Backspace) matches Some(EngineKey::Backspace),
        named_key_spec(NamedKey::Delete) matches Some(EngineKey::Delete),
        named_key_spec(NamedKey::Escape) matches Some(EngineKey::Escape),
        named_key_spec(NamedKey::Insert) matches Some(EngineKey::Insert),
        named_key_spec(NamedKey::CapsLock) matches Some(EngineKey::CapsLock),
        named_key_spec(NamedKey::NumLock) matches Some(EngineKey::NumLock),
        named_key_spec(NamedKey::ScrollLock) matches Some(EngineKey::ScrollLock),
        named_key_spec(NamedKey::Pause) matches Some(EngineKey::Pause),
        named_key_spec(NamedKey::PrintScreen) matches Some(EngineKey::PrintScreen),
        named_key_spec(NamedKey::ContextMenu) matches Some(EngineKey::ContextMenu),
        named_key_spec(NamedKey::ArrowDown) matches Some(EngineKey::ArrowDown),
        named_key_spec(NamedKey::ArrowLeft) matches Some(EngineKey::ArrowLeft),
        named_key_spec(NamedKey::ArrowRight) matches Some(EngineKey::ArrowRight),
        named_key_spec(NamedKey::ArrowUp) matches Some(EngineKey::ArrowUp),
        named_key_spec(NamedKey::End) matches Some(EngineKey::End),
        named_key_spec(NamedKey::Home) matches Some(EngineKey::Home),
        named_key_spec(NamedKey::PageDown) matches Some(EngineKey::PageDown),
        named_key_spec(NamedKey::PageUp) matches Some(EngineKey::PageUp),
        named_key_spec(NamedKey::F1) matches Some(EngineKey::F1),
        named_key_spec(NamedKey::F2) matches Some(EngineKey::F2),
        named_key_spec(NamedKey::F3) matches Some(EngineKey::F3),
        named_key_spec(NamedKey::F4) matches Some(EngineKey::F4),
        named_key_spec(NamedKey::F5) matches Some(EngineKey::F5),
        named_key_spec(NamedKey::F6) matches Some(EngineKey::F6),
        named_key_spec(NamedKey::F7) matches Some(EngineKey::F7),
        named_key_spec(NamedKey::F8) matches Some(EngineKey::F8),
        named_key_spec(NamedKey::F9) matches Some(EngineKey::F9),
        named_key_spec(NamedKey::F10) matches Some(EngineKey::F10),
        named_key_spec(NamedKey::F11) matches Some(EngineKey::F11),
        named_key_spec(NamedKey::F12) matches Some(EngineKey::F12),
        named_key_spec(NamedKey::Space) is None,
        named_key_spec(NamedKey::Other) is None,
{
}

/// Law: no two named keys reach the document as the same key.
pub proof fn law_named_keys_distinct(a: NamedKey, b: NamedKey)
    requires
        named_key_spec(a) is Some,
        named_key_spec(a) == named_key_spec(b),
    ensures
        a == b,
{
}

/// Whether the document understands the key at all.
pub open spec fn key_is_known(key: KeyInput) -> bool {
    match key {
        KeyInput::Character(_) => true,
        KeyInput::Named(named) => named != NamedKey::Other,
        KeyInput::Unidentified => false,
    }
}

/// `out` is the document's key for the widget's key `key`: a typed text stays that text, the
/// space bar types a space, the named keys listed in `named_key_spec` map to their namesakes,
/// and no other key has a counterpart.
pub open spec fn key_mapping(key: KeyInput, out: Option<EngineKey>) -> bool {
    match key {
        KeyInput::Character(text) => out matches Some(EngineKey::Character(t)) && t@ == text@,
        KeyInput::Named(NamedKey::Space) => out matches Some(EngineKey::Character(t)) && t@
            == seq![' '],
        KeyInput::Named(named) => out == named_key_spec(named),
        KeyInput::Unidentified => out is None,
    }
}

/// Calls `String::clone`: a copy of the text.
fn copy_text(text: &String) -> (copy: String)
    ensures
        copy@ == text@,
{
    text.clone()
}

/// The document's key for a named key of the widget.
fn named_to_engine_key(named: NamedKey) -> (out: Option<EngineKey>)
    ensures
        key_mapping(KeyInput::Named(named), out),
{
    match named {
        NamedKey::Enter => Some(EngineKey::Enter),
        NamedKey::Tab => Some(EngineKey::Tab),
        NamedKey::Backspace => Some(EngineKey::Backspace),
        NamedKey::Delete => Some(EngineKey::Delete),
        NamedKey::Escape => Some(EngineKey::Escape),
        NamedKey::Insert => Some(EngineKey::Insert),
        NamedKey::CapsLock => Some(EngineKey::CapsLock),
        NamedKey::NumLock => Some(EngineKey::NumLock),
        NamedKey::ScrollLock => Some(EngineKey::ScrollLock),
        NamedKey::Pause => Some(EngineKey::Pause),
        NamedKey::PrintScreen => Some(EngineKey::PrintScreen),
        NamedKey::ContextMenu => Some(EngineKey::ContextMenu),
        NamedKey::ArrowDown => Some(EngineKey::ArrowDown),
        NamedKey::ArrowLeft => Some(EngineKey::ArrowLeft),
        NamedKey::ArrowRight => Some(EngineKey::ArrowRight),
        NamedKey::ArrowUp => Some(EngineKey::ArrowUp),
        NamedKey::End => Some(EngineKey::End),
        NamedKey::Home => Some(EngineKey::Home),
        NamedKey::PageDown => Some(EngineKey::PageDown),
        NamedKey::PageUp => Some(EngineKey::PageUp),
        NamedKey::F1 => Some(EngineKey::F1),
        NamedKey::F2 => Some(EngineKey::F2),
        NamedKey::F3 => Some(EngineKey::F3),
        NamedKey::F4 => Some(EngineKey::F4),
        NamedKey::F5 => Some(EngineKey::F5),
        NamedKey::F6 => Some(EngineKey::F6),
        NamedKey::F7 => Some(EngineKey::F7),
        NamedKey::F8 => Some(EngineKey::F8),
        NamedKey::F9 => Some(EngineKey::F9),
        NamedKey::F10 => Some(EngineKey::F10),
        NamedKey::F11 => Some(EngineKey::F11),
        NamedKey::F12 => Some(EngineKey::F12),
        NamedKey::Space => {
            let space = String::from_str(" ");
            proof {
                reveal_strlit(" ");
            }
            assert(space@ =~= seq![' ']);
            Some(EngineKey::Character(space))
        },
        NamedKey::Other => None,
    }
}

/// The document's key for the widget's key.
pub fn iced_key_to_blitz_key(key: &KeyInput) -> (out: Option<EngineKey>)
    ensures
        key_mapping(*key, out),
        out is Some <==> key_is_known(*key),
{
    match key {
        KeyInput::Character(text) => Some(EngineKey::Character(copy_text(text))),
        KeyInput::Named(named) => named_to_engine_key(*named),
        KeyInput::Unidentified => None,
    }
}

/// `out` is the document's event for the widget's keyboard event `event`: the same key and
/// direction, the shift, control and alt modifiers with the logo key as meta, and the typed
/// text of a character key going down; no event where the key is not understood or the event
/// is not a key going down or up.
pub open spec fn key_event_mapping(event: KeyEventInput, out: Option<EngineKeyEvent>) -> bool {
    match event {
        KeyEventInput::Pressed { key, modifiers } => key_event_fields(key, modifiers, true, out),
        KeyEventInput::Released { key, modifiers } => key_event_fields(key, modifiers, false, out),
        KeyEventInput::Other => out is None,
    }
}

/// See `key_event_mapping`.
pub open spec fn key_event_fields(
    key: KeyInput,
    modifiers: ModifierState,
    pressed: bool,
    out: Option<EngineKeyEvent>,
) -> bool {
    if key_is_known(key) {
        &&& out is Some
        &&& key_mapping(key, Some(out->0.key))
        &&& out->0.pressed == pressed
        &&& out->0.shift == modifiers.shift
        &&& out->0.control == modifiers.control
        &&& out->0.alt == modifiers.alt
        &&& out->0.meta == modifiers.logo
        &&& (out->0.text is Some <==> pressed && out->0.key is Character)
        &&& (out->0.text matches Some(t) ==> out->0.key matches EngineKey::Character(c) && t@
            == c@)
    } else {
        out is None
    }
}

/// Law: a character key going down reaches the document as that character, typing exactly
/// that text, with the modifiers as they were (the logo key as meta); the same key going up
/// types nothing; an event that is not a key going down or up reaches the document as nothing.
pub proof fn law_character_key_events(text: String, modifiers: ModifierState, out: Option<EngineKeyEvent>)
    ensures
        key_event_mapping(KeyEventInput::Pressed { key: KeyInput::Character(text), modifiers }, out)
            ==> {
            &&& out matches Some(e)
            &&& e.pressed
            &&& e.key matches EngineKey::Character(k) && k@ == text@
            &&& e.text matches Some(t) && t@ == text@
            &&& e.shift == modifiers.shift && e.control == modifiers.control && e.alt
                == modifiers.alt && e.meta == modifiers.logo
        },
        key_event_mapping(KeyEventInput::Released { key: KeyInput::Character(text), modifiers }, out)
            ==> {
            &&& out matches Some(e)
            &&& !e.pressed
            &&& e.key matches EngineKey::Character(k) && k@ == text@
            &&& e.text is None
            &&& e.shift == modifiers.shift && e.control == modifiers.control && e.alt
                == modifiers.alt && e.meta == modifiers.logo
        },
        key_event_mapping(KeyEventInput::Other, out) ==> out is None,
        key_event_mapping(
            KeyEventInput::Pressed { key: KeyInput::Named(NamedKey::Other), modifiers },
            out,
        ) ==> out is None,
        key_event_mapping(KeyEventInput::Pressed { key: KeyInput::Unidentified, modifiers }, out)
            ==> out is None,
{
}

/// Law: a named key going down reaches the document as a key-down of the key of the same name,
/// typing no text; the space bar types a single space.
pub proof fn law_named_key_events(named: NamedKey, modifiers: ModifierState, out: Option<EngineKeyEvent>)
    requires
        key_event_mapping(KeyEventInput::Pressed { key: KeyInput::Named(named), modifiers }, out),
    ensures
        named == NamedKey::Backspace ==> (out matches Some(e) && e.key is Backspace && e.pressed
            && e.text is None),
        named == NamedKey::Delete ==> (out matches Some(e) && e.key is Delete && e.pressed
            && e.text is None),
        named == NamedKey::Enter ==> (out matches Some(e) && e.key is Enter && e.text is None),
        named == NamedKey::Space ==> (out matches Some(e) && (e.text matches Some(t) && t@
            == seq![' '])),
        named == NamedKey::Other ==> out is None,
{
}

/// The document's event for the widget's keyboard event, if it has one.
pub fn iced_keyboard_to_blitz(event: &KeyEventInput) -> (out: Option<EngineKeyEvent>)
    ensures
        key_event_mapping(*event, out),
{
    let (pressed, key, modifiers) = match event {
        KeyEventInput::Pressed { key, modifiers } => (true, key, *modifiers),
        KeyEventInput::Released { key, modifiers } => (false, key, *modifiers),
        KeyEventInput::Other => {
            return None;
        },
    };
    let engine_key = match iced_key_to_blitz_key(key) {
        Some(k) => k,
        None => {
            return None;
        },
    };
    let text = if pressed {
        match &engine_key {
            EngineKey::Character(t) => Some(copy_text(t)),
            _ => None,
        }
    } else {
        None
    };
    Some(
        EngineKeyEvent {
            key: engine_key,
            pressed,
            shift: modifiers.shift,
            control: modifiers.control,
            alt: modifiers.alt,
            meta: modifiers.logo,
            text,
        },
    )
}

/// A mouse button as the widget reports it.
#[derive(Clone, Copy, Debug, PartialEq, Eq, Structural)]
pub enum MouseButtonInput {
    Left,
    Right,
    Middle,
    Back,
    Forward,
    Other(u16),
}

/// The button that changed, as the document receives it.
#[derive(Clone, Copy, Debug, PartialEq, Eq, Structural)]
pub enum PointerButton {
    Main,
    Secondary,
    Auxiliary,
    Fourth,
    Fifth,
}

/// The buttons held, as the document receives them.
#[derive(Clone, Copy, Debug, PartialEq, Eq, Structural)]
pub enum PointerButtons {
    NoButton,
    Primary,
    Secondary,
    Auxiliary,
    Fourth,
    Fifth,
}

/// A mouse event as the widget reports it, without its coordinates and scroll amounts.
#[derive(Clone, Copy, Debug, PartialEq, Eq, Structural)]
pub enum MouseEventInput {
    WheelScrolled,
    ButtonPressed(MouseButtonInput),
    ButtonReleased(MouseButtonInput),
    CursorMoved,
    CursorLeft,
    Other,
}

/// What the engine does with a mouse event.
#[derive(Clone, Copy, Debug, PartialEq, Eq, Structural)]
pub enum MouseAction {
    /// Scroll the view by the wheel's amount.
    Scroll,
    /// Hand the document a pointer-down event.
    PointerDown(PointerButton, PointerButtons),
    /// Hand the document a pointer-up event, with no buttons held.
    PointerUp(PointerButton),
    /// Move the document's hover to the cursor and take up its cursor icon.
    Hover,
    /// Reset the view's cursor.
    Leave,
    /// Nothing.
    Ignore,
}

/// The document's button for a mouse button, if it has one.
pub open spec fn pointer_button_spec(button: MouseButtonInput) -> Option<PointerButton> {
    match button {
        MouseButtonInput::Left => Some(PointerButton::Main),
        MouseButtonInput::Right => Some(PointerButton::Secondary),
        MouseButtonInput::Middle => Some(PointerButton::Auxiliary),
        MouseButtonInput::Back => Some(PointerButton::Fourth),
        MouseButtonInput::Forward => Some(PointerButton::Fifth),
        MouseButtonInput::Other(_) => None,
    }
}

/// The buttons held while only `button` is down.
pub open spec fn held_buttons_spec(button: PointerButton) -> PointerButtons {
    match button {
        PointerButton::Main => PointerButtons::Primary,
        PointerButton::Secondary => PointerButtons::Secondary,
        PointerButton::Auxiliary => PointerButtons::Auxiliary,
        PointerButton::Fourth => PointerButtons::Fourth,
        PointerButton::Fifth => PointerButtons::Fifth,
    }
}

/// What the engine does with each mouse event.
pub open spec fn mouse_action_spec(event: MouseEventInput) -> MouseAction {
    match event {
        MouseEventInput::WheelScrolled => MouseAction::Scroll,
        MouseEventInput::ButtonPressed(b) => match pointer_button_spec(b) {
            Some(p) => MouseAction::PointerDown(p, held_buttons_spec(p)),
            None => MouseAction::Ignore,
        },
        MouseEventInput::ButtonReleased(b) => match pointer_button_spec(b) {
            Some(p) => MouseAction::PointerUp(p),
            None => MouseAction::Ignore,
        },
        MouseEventInput::CursorMoved => MouseAction::Hover,
        MouseEventInput::CursorLeft => MouseAction::Leave,
        MouseEventInput::Other => MouseAction::Ignore,
    }
}

/// Law: each mouse button with a document counterpart is pressed as a pointer-down of that
/// button with only that button held, and released as a pointer-up of the same button; any
/// other button is ignored. Left is the main button, right the secondary, middle the
/// auxiliary, back the fourth and forward the fifth.
pub proof fn law_mouse_buttons(button: MouseButtonInput)
    ensures
        match button {
            MouseButtonInput::Left => {
                &&& mouse_action_spec(MouseEventInput::ButtonPressed(button))
                    == MouseAction::PointerDown(PointerButton::Main, PointerButtons::Primary)
                &&& mouse_action_spec(MouseEventInput::ButtonReleased(button))
                    == MouseAction::PointerUp(PointerButton::Main)
            },
            MouseButtonInput::Right => {
                &&& mouse_action_spec(MouseEventInput::ButtonPressed(button))
                    == MouseAction::PointerDown(PointerButton::Secondary, PointerButtons::Secondary)
                &&& mouse_action_spec(MouseEventInput::ButtonReleased(button))
                    == MouseAction::PointerUp(PointerButton::Secondary)
            },
            MouseButtonInput::Middle => {
                &&& mouse_action_spec(MouseEventInput::ButtonPressed(button))
                    == MouseAction::PointerDown(PointerButton::Auxiliary, PointerButtons::Auxiliary)
                &&& mouse_action_spec(MouseEventInput::ButtonReleased(button))
                    == MouseAction::PointerUp(PointerButton::Auxiliary)
            },
            MouseButtonInput::Back => {
                &&& mouse_action_spec(MouseEventInput::ButtonPressed(button))
                    == MouseAction::PointerDown(PointerButton::Fourth, PointerButtons::Fourth)
                &&& mouse_action_spec(MouseEventInput::ButtonReleased(button))
                    == MouseAction::PointerUp(PointerButton::Fourth)
            },
            MouseButtonInput::Forward => {
                &&& mouse_action_spec(MouseEventInput::ButtonPressed(button))
                    == MouseAction::PointerDown(PointerButton::Fifth, PointerButtons::Fifth)
                &&& mouse_action_spec(MouseEventInput::ButtonReleased(button))
                    == MouseAction::PointerUp(PointerButton::Fifth)
            },
            MouseButtonInput::Other(_) => {
                &&& mouse_action_spec(MouseEventInput::ButtonPressed(button)) == MouseAction::Ignore
                &&& mouse_action_spec(MouseEventInput::ButtonReleased(button))
                    == MouseAction::Ignore
            },
        },
{
}

/// Law: the wheel scrolls, moving the pointer hovers, leaving the view resets the cursor, and
/// any other pointer event is ignored.
pub proof fn law_other_mouse_events()
    ensures
        mouse_action_spec(MouseEventInput::WheelScrolled) == MouseAction::Scroll,
        mouse_action_spec(MouseEventInput::CursorMoved) == MouseAction::Hover,
        mouse_action_spec(MouseEventInput::CursorLeft) == MouseAction::Leave,
        mouse_action_spec(MouseEventInput::Other) == MouseAction::Ignore,
{
}

/// Law: a pressed button and the same button released reach the document as the same button,
/// and a press holds exactly the button pressed.
pub proof fn law_press_release_agree(button: MouseButtonInput, p: PointerButton, held: PointerButtons)
    ensures
        mouse_action_spec(MouseEventInput::ButtonPressed(button)) == MouseAction::PointerDown(p, held)
            <==> mouse_action_spec(MouseEventInput::ButtonReleased(button))
            == MouseAction::PointerUp(p) && held == held_buttons_spec(p),
        mouse_action_spec(MouseEventInput::ButtonPressed(button)) == MouseAction::Ignore
            <==> mouse_action_spec(MouseEventInput::ButtonReleased(button)) == MouseAction::Ignore,
{
}

/// The document's button for a mouse button.
pub fn pointer_button(button: MouseButtonInput) -> (out: Option<PointerButton>)
    ensures
        out == pointer_button_spec(button),
{
    match button {
        MouseButtonInput::Left => Some(PointerButton::Main),
        MouseButtonInput::Right => Some(PointerButton::Secondary),
        MouseButtonInput::Middle => Some(PointerButton::Auxiliary),
        MouseButtonInput::Back => Some(PointerButton::Fourth),
        MouseButtonInput::Forward => Some(PointerButton::Fifth),
        MouseButtonInput::Other(_) => None,
    }
}

/// The buttons held while only `button` is down.
pub fn held_buttons(button: PointerButton) -> (out: PointerButtons)
    ensures
        out == held_buttons_spec(button),
{
    match button {
        PointerButton::Main => PointerButtons::Primary,
        PointerButton::Secondary => PointerButtons::Secondary,
        PointerButton::Auxiliary => PointerButtons::Auxiliary,
        PointerButton::Fourth => PointerButtons::Fourth,
        PointerButton::Fifth => PointerButtons::Fifth,
    }
}

/// What the engine does with a mouse event.
pub fn plan_mouse_event(event: MouseEventInput) -> (action: MouseAction)
    ensures
        action == mouse_action_spec(event),
{
    match event {
        MouseEventInput::WheelScrolled => MouseAction::Scroll,
        MouseEventInput::ButtonPressed(b) => match pointer_button(b) {
            Some(p) => MouseAction::PointerDown(p, held_buttons(p)),
            None => MouseAction::Ignore,
        },
        MouseEventInput::ButtonReleased(b) => match pointer_button(b) {
            Some(p) => MouseAction::PointerUp(p),
            None => MouseAction::Ignore,
        },
        MouseEventInput::CursorMoved => MouseAction::Hover,
        MouseEventInput::CursorLeft => MouseAction::Leave,
        MouseEventInput::Other => MouseAction::Ignore,
    }
}

/// A cursor icon as the document asks for it.
#[derive(Clone, Copy, Debug, PartialEq, Eq, Structural)]
pub enum CursorShape {
    Default,
    ContextMenu,
    Help,
    Pointer,
    Progress,
    Wait,
    Cell,
    Crosshair,
    Text,
    VerticalText,
    Alias,
    Copy,
    Move,
    NoDrop,
    NotAllowed,
    Grab,
    Grabbing,
    EResize,
    NResize,
    NeResize,
    NwResize,
    SResize,
    SeResize,
    SwResize,
    WResize,
    EwResize,
    NsResize,
    NeswResize,
    NwseResize,
    ColResize,
    RowResize,
    AllScroll,
    ZoomIn,
    ZoomOut,
    DndAsk,
    AllResize,
}

/// The widget's cursor, as far as the engine sets it.
#[derive(Clone, Copy, Debug, PartialEq, Eq, Structural)]
pub enum CursorInteraction {
    Idle,
    Pointer,
    Text,
    Crosshair,
    Grab,
    Grabbing,
    NotAllowed,
    ResizingHorizontally,
    ResizingVertically,
    ZoomIn,
    ZoomOut,
}

/// The widget's cursor for the document's cursor icon; icons without a counterpart show as
/// idle.
pub open spec fn interaction_spec(icon: CursorShape) -> CursorInteraction {
    match icon {
        CursorShape::Pointer => CursorInteraction::Pointer,
        CursorShape::Text => CursorInteraction::Text,
        CursorShape::Crosshair => CursorInteraction::Crosshair,
        CursorShape::Grab => CursorInteraction::Grab,
        CursorShape::Grabbing => CursorInteraction::Grabbing,
        CursorShape::NotAllowed | CursorShape::NoDrop => CursorInteraction::NotAllowed,
        CursorShape::ColResize | CursorShape::EwResize => CursorInteraction::ResizingHorizontally,
        CursorShape::RowResize | CursorShape::NsResize => CursorInteraction::ResizingVertically,
        CursorShape::ZoomIn => CursorInteraction::ZoomIn,
        CursorShape::ZoomOut => CursorInteraction::ZoomOut,
        _ => CursorInteraction::Idle,
    }
}

/// Law: each cursor icon of the document that the widget can show is shown as its
/// counterpart: pointer, text, crosshair, grab and grabbing as themselves, not-allowed and
/// no-drop as not-allowed, column and east-west resizing as horizontal resizing, row and
/// north-south resizing as vertical resizing, zoom-in and zoom-out as themselves; every other
/// icon shows as idle.
pub proof fn law_cursor_counterparts(icon: CursorShape)
    ensures
        icon == CursorShape::Pointer ==> interaction_spec(icon) == CursorInteraction::Pointer,
        icon == CursorShape::Text ==> interaction_spec(icon) == CursorInteraction::Text,
        icon == CursorShape::Crosshair ==> interaction_spec(icon) == CursorInteraction::Crosshair,
        icon == CursorShape::Grab ==> interaction_spec(icon) == CursorInteraction::Grab,
        icon == CursorShape::Grabbing ==> interaction_spec(icon) == CursorInteraction::Grabbing,
        icon == CursorShape::NotAllowed ==> interaction_spec(icon) == CursorInteraction::NotAllowed,
        icon == CursorShape::NoDrop ==> interaction_spec(icon) == CursorInteraction::NotAllowed,
        icon == CursorShape::ColResize ==> interaction_spec(icon)
            == CursorInteraction::ResizingHorizontally,
        icon == CursorShape::EwResize ==> interaction_spec(icon)
            == CursorInteraction::ResizingHorizontally,
        icon == CursorShape::RowResize ==> interaction_spec(icon)
            == CursorInteraction::ResizingVertically,
        icon == CursorShape::NsResize ==> interaction_spec(icon)
            == CursorInteraction::ResizingVertically,
        icon == CursorShape::ZoomIn ==> interaction_spec(icon) == CursorInteraction::ZoomIn,
        icon == CursorShape::ZoomOut ==> interaction_spec(icon) == CursorInteraction::ZoomOut,
        icon != CursorShape::Pointer && icon != CursorShape::Text && icon != CursorShape::Crosshair
            && icon != CursorShape::Grab && icon != CursorShape::Grabbing && icon
            != CursorShape::NotAllowed && icon != CursorShape::NoDrop && icon
            != CursorShape::ColResize && icon != CursorShape::EwResize && icon
            != CursorShape::RowResize && icon != CursorShape::NsResize && icon
            != CursorShape::ZoomIn && icon != CursorShape::ZoomOut ==> interaction_spec(icon)
            == CursorInteraction::Idle,
{
}

/// The widget's cursor for the document's cursor icon.
pub fn cursor_icon_to_interaction(icon: CursorShape) -> (out: CursorInteraction)
    ensures
        out == interaction_spec(icon),
{
    match icon {
        CursorShape::Pointer => CursorInteraction::Pointer,
        CursorShape::Text => CursorInteraction::Text,
        CursorShape::Crosshair => CursorInteraction::Crosshair,
        CursorShape::Grab => CursorInteraction::Grab,
        CursorShape::Grabbing => CursorInteraction::Grabbing,
        CursorShape::NotAllowed | CursorShape::NoDrop => CursorInteraction::NotAllowed,
        CursorShape::ColResize | CursorShape::EwResize => CursorInteraction::ResizingHorizontally,
        CursorShape::RowResize | CursorShape::NsResize => CursorInteraction::ResizingVertically,
        CursorShape::ZoomIn => CursorInteraction::ZoomIn,
        CursorShape::ZoomOut => CursorInteraction::ZoomOut,
        CursorShape::Wait | CursorShape::Progress => CursorInteraction::Idle,
        _ => CursorInteraction::Idle,
    }
}

} // verus!
