use vstd::prelude::*;

verus! {

/// The engine's keyboard enumeration. `Unknown` stands for any key code the
/// backend delivers that the engine does not model.
#[derive(Clone, Copy, PartialEq, Eq, Structural, Debug)]
pub enum GsnKey {
    Escape,
    Space,
    Up,
    Down,
    Left,
    Right,
    Apostrophe,
    Comma,
    Minus,
    Period,
    Slash,
    A,
    B,
    C,
    D,
    E,
    F,
    G,
    H,
    I,
    J,
    K,
    L,
    M,
    N,
    O,
    P,
    Q,
    R,
    S,
    T,
    U,
    V,
    W,
    X,
    Y,
    Z,
    Unknown,
    Num0,
    Num1,
    Num2,
    Num3,
    Num4,
    Num5,
    Num6,
    Num7,
    Num8,
    Num9,
    Kp0,
    Kp1,
    Kp2,
    Kp3,
    Kp4,
    Kp5,
    Kp6,
    Kp7,
    Kp8,
    Kp9,
    F1,
    F2,
    F3,
    F4,
    F5,
    F6,
    F7,
    F8,
    F9,
    F10,
    F11,
    F12,
    F13,
    F14,
    F15,
    F16,
    F17,
    F18,
    F19,
    F20,
    F21,
    F22,
    F23,
    F24,
    F25,
    Enter,
    Grave,
    LeftBracket,
    RightBracket,
    SemiColon,
    Backslash,
    Equal,
    World1,
    World2,
    Tab,
    Backspace,
    Insert,
    Delete,
    PageUp,
    PageDown,
    Home,
    End,
    CapsLock,
    ScrollLock,
    NumLock,
    PrintScreen,
    Pause,
    KpDecimal,
    KpDivide,
    KpMultiply,
    KpSubtract,
    KpAdd,
    KpEnter,
    KpEqual,
    LeftShift,
    LeftControl,
    LeftAlt,
    LeftSuper,
    RightShift,
    RightControl,
    RightAlt,
    RightSuper,
    Menu,
}

/// The press state of a key or mouse-button transition.
#[derive(Clone, Copy, PartialEq, Eq, Structural, Debug)]
pub enum GsnAction {
    Press,
    Release,
    Repeat,
}

/// A mouse button, 1-indexed: 1 is the primary button.
pub type GsnButton = u8;

/// A cursor position in window client pixels.
#[derive(Clone, Copy, PartialEq, Eq, Structural, Debug)]
pub struct MousePos {
    pub x: u32,
    pub y: u32,
}

/// A semantic action queued for the application: `Init` once at
/// construction, `Draw` once per tick, and one `KeyPress` or `MousePress`
/// per translated input event.
#[derive(Clone, Copy, PartialEq, Eq, Structural, Debug)]
pub enum GsnEvent {
    Init,
    Draw,
    KeyPress(GsnKey, GsnAction),
    MousePress(GsnButton, GsnAction, MousePos),
}

/// The modifier keys held during an input event.
#[derive(Clone, Copy, PartialEq, Eq, Structural, Debug)]
pub struct GsnModifiers {
    pub shift: bool,
    pub alt: bool,
    pub control: bool,
    pub _super: bool,
    pub capslock: bool,
    pub numlock: bool,
}

/// The display mode a window is created with.
#[derive(Clone, Copy, PartialEq, Eq, Structural, Debug)]
pub enum GsnWindowMode {
    WINDOWED,
}

/// A key or mouse-button transition as the windowing backend reports it.
#[derive(Clone, Copy, PartialEq, Eq, Structural, Debug)]
pub enum NativeAction {
    Press,
    Release,
    Repeat,
}

/// A mouse button of the windowing backend's fixed set of eight.
#[derive(Clone, Copy, PartialEq, Eq, Structural, Debug)]
pub enum NativeMouseButton {
    Button1,
    Button2,
    Button3,
    Button4,
    Button5,
    Button6,
    Button7,
    Button8,
}

/// A raw input event as delivered by the windowing backend: a key
/// transition carrying the backend's integer key code, or a mouse-button
/// transition carrying the cursor position sampled at translation time.
#[derive(Clone, Copy, PartialEq, Eq, Structural, Debug)]
pub enum NativeEvent {
    Key(i32, NativeAction),
    MouseButton(NativeMouseButton, NativeAction, MousePos),
}

/// The engine press state for each backend transition. Total: the
/// backend's transitions are exactly these three.
pub open spec fn spec_map_action(a: NativeAction) -> GsnAction {
    match a {
        NativeAction::Press => GsnAction::Press,
        NativeAction::Release => GsnAction::Release,
        NativeAction::Repeat => GsnAction::Repeat,
    }
}

/// Maps a backend transition to the engine press state. Deterministic: the
/// result is a function of the argument alone.
pub fn map_action(a: NativeAction) -> (r: GsnAction)
    ensures
        r == spec_map_action(a),
{
    match a {
        NativeAction::Press => GsnAction::Press,
        NativeAction::Release => GsnAction::Release,
        NativeAction::Repeat => GsnAction::Repeat,
    }
}

/// The 1-indexed engine button for each backend button. Total over the
/// backend's fixed set.
pub open spec fn spec_map_mouse_button(b: NativeMouseButton) -> GsnButton {
    match b {
        NativeMouseButton::Button1 => 1u8,
        NativeMouseButton::Button2 => 2u8,
        NativeMouseButton::Button3 => 3u8,
        NativeMouseButton::Button4 => 4u8,
        NativeMouseButton::Button5 => 5u8,
        NativeMouseButton::Button6 => 6u8,
        NativeMouseButton::Button7 => 7u8,
        NativeMouseButton::Button8 => 8u8,
    }
}

/// Maps a backend mouse button to the engine's 1-indexed button number.
/// Deterministic: the result is a function of the argument alone.
pub fn map_mouse_button(b: NativeMouseButton) -> (r: GsnButton)
    ensures
        r == spec_map_mouse_button(b),
{
    match b {
        NativeMouseButton::Button1 => 1,
        NativeMouseButton::Button2 => 2,
        NativeMouseButton::Button3 => 3,
        NativeMouseButton::Button4 => 4,
        NativeMouseButton::Button5 => 5,
        NativeMouseButton::Button6 => 6,
        NativeMouseButton::Button7 => 7,
        NativeMouseButton::Button8 => 8,
    }
}

/// The engine key for each backend key code. Total over all of `i32`:
/// a code the engine does not model maps to `Unknown`, as does the
/// backend's own unknown-key code.
pub open spec fn spec_map_keys(code: i32) -> GsnKey {
    match code {
        32i32 => GsnKey::Space,
        39i32 => GsnKey::Apostrophe,
        44i32 => GsnKey::Comma,
        45i32 => GsnKey::Minus,
        46i32 => GsnKey::Period,
        47i32 => GsnKey::Slash,
        48i32 => GsnKey::Num0,
        49i32 => GsnKey::Num1,
        50i32 => GsnKey::Num2,
        51i32 => GsnKey::Num3,
        52i32 => GsnKey::Num4,
        53i32 => GsnKey::Num5,
        54i32 => GsnKey::Num6,
        55i32 => GsnKey::Num7,
        56i32 => GsnKey::Num8,
        57i32 => GsnKey::Num9,
        59i32 => GsnKey::SemiColon,
        61i32 => GsnKey::Equal,
        65i32 => GsnKey::A,
        66i32 => GsnKey::B,
        67i32 => GsnKey::C,
        68i32 => GsnKey::D,
        69i32 => GsnKey::E,
        70i32 => GsnKey::F,
        71i32 => GsnKey::G,
        72i32 => GsnKey::H,
        73i32 => GsnKey::I,
        74i32 => GsnKey::J,
        75i32 => GsnKey::K,
        76i32 => GsnKey::L,
        77i32 => GsnKey::M,
        78i32 => GsnKey::N,
        79i32 => GsnKey::O,
        80i32 => GsnKey::P,
        81i32 => GsnKey::Q,
        82i32 => GsnKey::R,
        83i32 => GsnKey::S,
        84i32 => GsnKey::T,
        85i32 => GsnKey::U,
        86i32 => GsnKey::V,
        87i32 => GsnKey::W,
        88i32 => GsnKey::X,
        89i32 => GsnKey::Y,
        90i32 => GsnKey::Z,
        91i32 => GsnKey::LeftBracket,
        92i32 => GsnKey::Backslash,
        93i32 => GsnKey::RightBracket,
        96i32 => GsnKey::Grave,
        161i32 => GsnKey::World1,
        162i32 => GsnKey::World2,
        256i32 => GsnKey::Escape,
        257i32 => GsnKey::Enter,
        258i32 => GsnKey::Tab,
        259i32 => GsnKey::Backspace,
        260i32 => GsnKey::Insert,
        261i32 => GsnKey::Delete,
        262i32 => GsnKey::Right,
        263i32 => GsnKey::Left,
        264i32 => GsnKey::Down,
        265i32 => GsnKey::Up,
        266i32 => GsnKey::PageUp,
        267i32 => GsnKey::PageDown,
        268i32 => GsnKey::Home,
        269i32 => GsnKey::End,
        280i32 => GsnKey::CapsLock,
        281i32 => GsnKey::ScrollLock,
        282i32 => GsnKey::NumLock,
        283i32 => GsnKey::PrintScreen,
        284i32 => GsnKey::Pause,
        290i32 => GsnKey::F1,
        291i32 => GsnKey::F2,
        292i32 => GsnKey::F3,
        293i32 => GsnKey::F4,
        294i32 => GsnKey::F5,
        295i32 => GsnKey::F6,
        296i32 => GsnKey::F7,
        297i32 => GsnKey::F8,
        298i32 => GsnKey::F9,
        299i32 => GsnKey::F10,
        300i32 => GsnKey::F11,
        301i32 => GsnKey::F12,
        302i32 => GsnKey::F13,
        303i32 => GsnKey::F14,
        304i32 => GsnKey::F15,
        305i32 => GsnKey::F16,
        306i32 => GsnKey::F17,
        307i32 => GsnKey::F18,
        308i32 => GsnKey::F19,
        309i32 => GsnKey::F20,
        310i32 => GsnKey::F21,
        311i32 => GsnKey::F22,
        312i32 => GsnKey::F23,
        313i32 => GsnKey::F24,
        314i32 => GsnKey::F25,
        320i32 => GsnKey::Kp0,
        321i32 => GsnKey::Kp1,
        322i32 => GsnKey::Kp2,
        323i32 => GsnKey::Kp3,
        324i32 => GsnKey::Kp4,
        325i32 => GsnKey::Kp5,
        326i32 => GsnKey::Kp6,
        327i32 => GsnKey::Kp7,
        328i32 => GsnKey::Kp8,
        329i32 => GsnKey::Kp9,
        330i32 => GsnKey::KpDecimal,
        331i32 => GsnKey::KpDivide,
        332i32 => GsnKey::KpMultiply,
        333i32 => GsnKey::KpSubtract,
        334i32 => GsnKey::KpAdd,
        335i32 => GsnKey::KpEnter,
        336i32 => GsnKey::KpEqual,
        340i32 => GsnKey::LeftShift,
        341i32 => GsnKey::LeftControl,
        342i32 => GsnKey::LeftAlt,
        343i32 => GsnKey::LeftSuper,
        344i32 => GsnKey::RightShift,
        345i32 => GsnKey::RightControl,
        346i32 => GsnKey::RightAlt,
        347i32 => GsnKey::RightSuper,
        348i32 => GsnKey::Menu,
        _ => GsnKey::Unknown,
    }
}

/// Maps a backend key code to the engine key. Deterministic: the result
/// is a function of the argument alone.
pub fn map_keys(code: i32) -> (r: GsnKey)
    ensures
        r == spec_map_keys(code),
{
    match code {
        32i32 => GsnKey::Space,
        39i32 => GsnKey::Apostrophe,
        44i32 => GsnKey::Comma,
        45i32 => GsnKey::Minus,
        46i32 => GsnKey::Period,
        47i32 => GsnKey::Slash,
        48i32 => GsnKey::Num0,
        49i32 => GsnKey::Num1,
        50i32 => GsnKey::Num2,
        51i32 => GsnKey::Num3,
        52i32 => GsnKey::Num4,
        53i32 => GsnKey::Num5,
        54i32 => GsnKey::Num6,
        55i32 => GsnKey::Num7,
        56i32 => GsnKey::Num8,
        57i32 => GsnKey::Num9,
        59i32 => GsnKey::SemiColon,
        61i32 => GsnKey::Equal,
        65i32 => GsnKey::A,
        66i32 => GsnKey::B,
        67i32 => GsnKey::C,
        68i32 => GsnKey::D,
        69i32 => GsnKey::E,
        70i32 => GsnKey::F,
        71i32 => GsnKey::G,
        72i32 => GsnKey::H,
        73i32 => GsnKey::I,
        74i32 => GsnKey::J,
        75i32 => GsnKey::K,
        76i32 => GsnKey::L,
        77i32 => GsnKey::M,
        78i32 => GsnKey::N,
        79i32 => GsnKey::O,
        80i32 => GsnKey::P,
        81i32 => GsnKey::Q,
        82i32 => GsnKey::R,
        83i32 => GsnKey::S,
        84i32 => GsnKey::T,
        85i32 => GsnKey::U,
        86i32 => GsnKey::V,
        87i32 => GsnKey::W,
        88i32 => GsnKey::X,
        89i32 => GsnKey::Y,
        90i32 => GsnKey::Z,
        91i32 => GsnKey::LeftBracket,
        92i32 => GsnKey::Backslash,
        93i32 => GsnKey::RightBracket,
        96i32 => GsnKey::Grave,
        161i32 => GsnKey::World1,
        162i32 => GsnKey::World2,
        256i32 => GsnKey::Escape,
        257i32 => GsnKey::Enter,
        258i32 => GsnKey::Tab,
        259i32 => GsnKey::Backspace,
        260i32 => GsnKey::Insert,
        261i32 => GsnKey::Delete,
        262i32 => GsnKey::Right,
        263i32 => GsnKey::Left,
        264i32 => GsnKey::Down,
        265i32 => GsnKey::Up,
        266i32 => GsnKey::PageUp,
        267i32 => GsnKey::PageDown,
        268i32 => GsnKey::Home,
        269i32 => GsnKey::End,
        280i32 => GsnKey::CapsLock,
        281i32 => GsnKey::ScrollLock,
        282i32 => GsnKey::NumLock,
        283i32 => GsnKey::PrintScreen,
        284i32 => GsnKey::Pause,
        290i32 => GsnKey::F1,
        291i32 => GsnKey::F2,
        292i32 => GsnKey::F3,
        293i32 => GsnKey::F4,
        294i32 => GsnKey::F5,
        295i32 => GsnKey::F6,
        296i32 => GsnKey::F7,
        297i32 => GsnKey::F8,
        298i32 => GsnKey::F9,
        299i32 => GsnKey::F10,
        300i32 => GsnKey::F11,
        301i32 => GsnKey::F12,
        302i32 => GsnKey::F13,
        303i32 => GsnKey::F14,
        304i32 => GsnKey::F15,
        305i32 => GsnKey::F16,
        306i32 => GsnKey::F17,
        307i32 => GsnKey::F18,
        308i32 => GsnKey::F19,
        309i32 => GsnKey::F20,
        310i32 => GsnKey::F21,
        311i32 => GsnKey::F22,
        312i32 => GsnKey::F23,
        313i32 => GsnKey::F24,
        314i32 => GsnKey::F25,
        320i32 => GsnKey::Kp0,
        321i32 => GsnKey::Kp1,
        322i32 => GsnKey::Kp2,
        323i32 => GsnKey::Kp3,
        324i32 => GsnKey::Kp4,
        325i32 => GsnKey::Kp5,
        326i32 => GsnKey::Kp6,
        327i32 => GsnKey::Kp7,
        328i32 => GsnKey::Kp8,
        329i32 => GsnKey::Kp9,
        330i32 => GsnKey::KpDecimal,
        331i32 => GsnKey::KpDivide,
        332i32 => GsnKey::KpMultiply,
        333i32 => GsnKey::KpSubtract,
        334i32 => GsnKey::KpAdd,
        335i32 => GsnKey::KpEnter,
        336i32 => GsnKey::KpEqual,
        340i32 => GsnKey::LeftShift,
        341i32 => GsnKey::LeftControl,
        342i32 => GsnKey::LeftAlt,
        343i32 => GsnKey::LeftSuper,
        344i32 => GsnKey::RightShift,
        345i32 => GsnKey::RightControl,
        346i32 => GsnKey::RightAlt,
        347i32 => GsnKey::RightSuper,
        348i32 => GsnKey::Menu,
        _ => GsnKey::Unknown,
    }
}

/// The semantic action for a backend event: a key transition becomes a
/// `KeyPress` of the mapped key and press state; a mouse-button transition
/// becomes a `MousePress` of the mapped button, press state and the cursor
/// position sampled at translation time.
pub open spec fn spec_translate_event(e: NativeEvent) -> GsnEvent {
    match e {
        NativeEvent::Key(code, act) => GsnEvent::KeyPress(
            spec_map_keys(code),
            spec_map_action(act),
        ),
        NativeEvent::MouseButton(b, act, pos) => GsnEvent::MousePress(
            spec_map_mouse_button(b),
            spec_map_action(act),
            pos,
        ),
    }
}

/// Translates one backend event into its semantic action. Deterministic:
/// the result is a function of the argument alone.
pub fn translate_event(e: NativeEvent) -> (r: GsnEvent)
    ensures
        r == spec_translate_event(e),
{
    match e {
        NativeEvent::Key(code, act) => GsnEvent::KeyPress(map_keys(code), map_action(act)),
        NativeEvent::MouseButton(b, act, pos) => GsnEvent::MousePress(
            map_mouse_button(b),
            map_action(act),
            pos,
        ),
    }
}

/// A translated event is always an input action, never one of the control
/// markers `Init` or `Draw`; the `Draw` a tick appends after its translated
/// events is therefore the only `Draw` the tick adds.
pub proof fn lemma_translated_is_input(e: NativeEvent)
    ensures
        spec_translate_event(e) is KeyPress || spec_translate_event(e) is MousePress,
        !(spec_translate_event(e) is Draw),
        !(spec_translate_event(e) is Init),
{
}

} // verus!
