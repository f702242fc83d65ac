//! The keymap that the central node falls back to when storage holds none.

use vstd::prelude::*;

verus! {

/// Columns of the key matrix, both halves together.
pub const COL: usize = 12;

/// Rows of the key matrix.
pub const ROW: usize = 4;

/// Layers of the keymap.
pub const NUM_LAYER: usize = 5;

/// How long a key is held before it counts as held, in milliseconds.
pub const HOLD_MS: u16 = 175;

/// The keys that the keymap sends.
#[derive(Clone, Copy, Debug, PartialEq, Eq, Structural)]
pub enum KeyCode {
    No,
    Q,
    W,
    E,
    R,
    T,
    Y,
    U,
    I,
    O,
    P,
    A,
    S,
    D,
    F,
    G,
    H,
    J,
    K,
    L,
    Semicolon,
    Quote,
    Z,
    X,
    C,
    V,
    B,
    N,
    M,
    Comma,
    Dot,
    Slash,
    Backslash,
    Backspace,
    Escape,
    Space,
    Enter,
    Tab,
    Delete,
    LeftBracket,
    RightBracket,
    Grave,
    CapsLock,
    Kc1,
    Kc2,
    Kc3,
    Kc4,
    Kc5,
    Kc6,
    Kc7,
    Kc8,
    Kc9,
    Kc0,
    Minus,
    KpEqual,
    KpPlus,
    Home,
    PageDown,
    PageUp,
    End,
    Left,
    Down,
    Up,
    Right,
    LCtrl,
    LShift,
    LAlt,
    Kp1,
    Kp2,
    Kp3,
    Kp4,
    Kp5,
    Kp6,
    Kp7,
    Kp8,
    Kp9,
    Kp0,
}

/// A modifier that a key sends along or stands for while held.
#[derive(Clone, Copy, Debug, PartialEq, Eq, Structural)]
pub enum Modifier {
    LeftCtrl,
    LeftShift,
    LeftAlt,
    LeftGui,
}

/// What a position of the key matrix does on one layer.
#[derive(Clone, Copy, Debug, PartialEq, Eq, Structural)]
pub enum KeyAction {
    /// Nothing.
    No,
    /// Whatever the next active layer below does at this position.
    Transparent,
    /// Sends a key.
    Key(KeyCode),
    /// Sends a key with a modifier held.
    WithModifier(KeyCode, Modifier),
    /// Turns a layer on while the key is held.
    LayerWhileHeld(u8),
    /// Makes a layer the only active one.
    LayerSwitch(u8),
    /// Sends the key when tapped, holds the modifier when held; another key
    /// pressed and released in between counts as a hold.
    HomeRow(KeyCode, Modifier),
    /// Sends the key when tapped, turns the layer on while held.
    KeyOrLayer(KeyCode, u8),
}

/// One layer: what each position does.
pub type Layer = [[KeyAction; COL]; ROW];

/// A keymap: its layers, lowest first.
pub type Keymap = [Layer; NUM_LAYER];

impl KeyAction {
    /// The layer that the action turns on or switches to, if it names one.
    pub open spec fn layer(self) -> Option<u8> {
        match self {
            KeyAction::LayerWhileHeld(n) => Some(n),
            KeyAction::LayerSwitch(n) => Some(n),
            KeyAction::KeyOrLayer(_, n) => Some(n),
            _ => None,
        }
    }

    /// The layer that the action turns on while the key is held, if any.
    pub open spec fn held_layer(self) -> Option<u8> {
        match self {
            KeyAction::LayerWhileHeld(n) => Some(n),
            KeyAction::KeyOrLayer(_, n) => Some(n),
            _ => None,
        }
    }

    /// The layer that the action turns on or switches to, if it names one.
    pub fn target_layer(&self) -> (layer: Option<u8>)
        ensures
            layer == self.layer(),
    {
        match self {
            KeyAction::LayerWhileHeld(n) => Some(*n),
            KeyAction::LayerSwitch(n) => Some(*n),
            KeyAction::KeyOrLayer(_, n) => Some(*n),
            _ => None,
        }
    }
}

/// Whether `(row, col)` is a position of the matrix.
pub open spec fn on_matrix(row: int, col: int) -> bool {
    0 <= row < ROW && 0 <= col < COL
}

/// Every action of the layer that names a layer names one of the keymap.
pub open spec fn layers_in_range(layer: Layer) -> bool {
    forall|row: int, col: int|
        on_matrix(row, col) ==> ((#[trigger] layer[row][col]).layer() matches Some(n) ==> n
            < NUM_LAYER)
}

/// No position of the layer is transparent.
pub open spec fn opaque(layer: Layer) -> bool {
    forall|row: int, col: int| on_matrix(row, col) ==> #[trigger] layer[row][col] != KeyAction::Transparent
}

/// The keymap can be used as it stands.
///
/// Every layer that an action names exists. The lowest layer is opaque, for
/// there is nothing below it. A key that turns a layer on while held is
/// transparent on that layer, so that its release is seen by the layer
/// that owns the key. A key that switches to a layer switches again on that
/// layer, so that no layer is a dead end.
pub open spec fn usable(keymap: Keymap) -> bool {
    &&& forall|layer: int| 0 <= layer < NUM_LAYER ==> layers_in_range(#[trigger] keymap[layer])
    &&& opaque(keymap[0])
    &&& forall|layer: int, row: int, col: int|
        0 <= layer < NUM_LAYER && on_matrix(row, col) ==> ((#[trigger] keymap[layer][row][col]).held_layer() matches Some(
            n,
        ) ==> n < NUM_LAYER && keymap[n as int][row][col] == KeyAction::Transparent)
    &&& forall|layer: int, row: int, col: int|
        0 <= layer < NUM_LAYER && on_matrix(row, col) ==> (#[trigger] keymap[layer][row][col] matches KeyAction::LayerSwitch(
            n,
        ) ==> n < NUM_LAYER && n != layer && keymap[n as int][row][col] is LayerSwitch)
}

/// The default assignment, layer by layer and row by row.
pub open spec fn default_layers() -> Seq<Seq<Seq<KeyAction>>> {
    seq![
        // base layer
        seq![
            seq![
                KeyAction::Key(KeyCode::No), KeyAction::Key(KeyCode::Q),
                KeyAction::Key(KeyCode::W), KeyAction::Key(KeyCode::E), KeyAction::Key(KeyCode::R),
                KeyAction::Key(KeyCode::T), KeyAction::Key(KeyCode::Y), KeyAction::Key(KeyCode::U),
                KeyAction::Key(KeyCode::I), KeyAction::Key(KeyCode::O), KeyAction::Key(KeyCode::P),
                KeyAction::LayerSwitch(3),
            ],
            seq![
                KeyAction::Key(KeyCode::No), KeyAction::HomeRow(KeyCode::A, Modifier::LeftAlt),
                KeyAction::HomeRow(KeyCode::S, Modifier::LeftGui),
                KeyAction::HomeRow(KeyCode::D, Modifier::LeftCtrl),
                KeyAction::HomeRow(KeyCode::F, Modifier::LeftShift), KeyAction::Key(KeyCode::G),
                KeyAction::Key(KeyCode::H), KeyAction::HomeRow(KeyCode::J, Modifier::LeftShift),
                KeyAction::HomeRow(KeyCode::K, Modifier::LeftCtrl),
                KeyAction::HomeRow(KeyCode::L, Modifier::LeftGui),
                KeyAction::HomeRow(KeyCode::Semicolon, Modifier::LeftAlt),
                KeyAction::Key(KeyCode::Quote),
            ],
            seq![
                KeyAction::Key(KeyCode::No), KeyAction::Key(KeyCode::Z),
                KeyAction::Key(KeyCode::X), KeyAction::Key(KeyCode::C), KeyAction::Key(KeyCode::V),
                KeyAction::Key(KeyCode::B), KeyAction::Key(KeyCode::N), KeyAction::Key(KeyCode::M),
                KeyAction::Key(KeyCode::Comma), KeyAction::Key(KeyCode::Dot),
                KeyAction::Key(KeyCode::Slash), KeyAction::Key(KeyCode::Backslash),
            ],
            seq![
                KeyAction::Key(KeyCode::No), KeyAction::Key(KeyCode::No),
                KeyAction::Key(KeyCode::No), KeyAction::Key(KeyCode::Backspace),
                KeyAction::Key(KeyCode::Escape), KeyAction::KeyOrLayer(KeyCode::Space, 1),
                KeyAction::KeyOrLayer(KeyCode::Enter, 2), KeyAction::Key(KeyCode::Tab),
                KeyAction::Key(KeyCode::Delete), KeyAction::Key(KeyCode::No), KeyAction::No,
                KeyAction::Key(KeyCode::No),
            ],
        ],
        // number layer
        seq![
            seq![
                KeyAction::Transparent, KeyAction::Transparent, KeyAction::Transparent,
                KeyAction::Key(KeyCode::LeftBracket), KeyAction::Key(KeyCode::RightBracket),
                KeyAction::Key(KeyCode::Grave),
                KeyAction::WithModifier(KeyCode::Grave, Modifier::LeftShift),
                KeyAction::WithModifier(KeyCode::LeftBracket, Modifier::LeftShift),
                KeyAction::WithModifier(KeyCode::RightBracket, Modifier::LeftShift),
                KeyAction::Transparent, KeyAction::Transparent, KeyAction::Transparent,
            ],
            seq![
                KeyAction::Key(KeyCode::CapsLock), KeyAction::Key(KeyCode::Kc1),
                KeyAction::Key(KeyCode::Kc2), KeyAction::Key(KeyCode::Kc3),
                KeyAction::Key(KeyCode::Kc4), KeyAction::Key(KeyCode::Kc5),
                KeyAction::Key(KeyCode::Kc6), KeyAction::Key(KeyCode::Kc7),
                KeyAction::Key(KeyCode::Kc8), KeyAction::Key(KeyCode::Kc9),
                KeyAction::Key(KeyCode::Kc0), KeyAction::Transparent,
            ],
            seq![
                KeyAction::Transparent, KeyAction::Transparent, KeyAction::Transparent,
                KeyAction::Key(KeyCode::Enter), KeyAction::Key(KeyCode::Minus),
                KeyAction::WithModifier(KeyCode::Minus, Modifier::LeftShift),
                KeyAction::Key(KeyCode::KpEqual), KeyAction::Key(KeyCode::KpPlus),
                KeyAction::Transparent, KeyAction::Transparent, KeyAction::Transparent,
                KeyAction::Transparent,
            ],
            seq![
                KeyAction::Key(KeyCode::No), KeyAction::Key(KeyCode::No),
                KeyAction::Key(KeyCode::No), KeyAction::Transparent, KeyAction::Transparent,
                KeyAction::Transparent, KeyAction::Transparent, KeyAction::Transparent,
                KeyAction::Transparent, KeyAction::Key(KeyCode::No), KeyAction::Key(KeyCode::No),
                KeyAction::Key(KeyCode::No),
            ],
        ],
        // navigation layer
        seq![
            seq![
                KeyAction::Key(KeyCode::No), KeyAction::Key(KeyCode::No),
                KeyAction::Key(KeyCode::No), KeyAction::Key(KeyCode::No),
                KeyAction::Key(KeyCode::No), KeyAction::Key(KeyCode::No),
                KeyAction::Key(KeyCode::Home), KeyAction::Key(KeyCode::PageDown),
                KeyAction::Key(KeyCode::PageUp), KeyAction::Key(KeyCode::End),
                KeyAction::Key(KeyCode::No), KeyAction::Key(KeyCode::No),
            ],
            seq![
                KeyAction::Key(KeyCode::No), KeyAction::Key(KeyCode::No),
                KeyAction::Key(KeyCode::No), KeyAction::Key(KeyCode::No),
                KeyAction::Key(KeyCode::No), KeyAction::Key(KeyCode::No),
                KeyAction::Key(KeyCode::Left), KeyAction::Key(KeyCode::Down),
                KeyAction::Key(KeyCode::Up), KeyAction::Key(KeyCode::Right),
                KeyAction::Key(KeyCode::No), KeyAction::Key(KeyCode::No),
            ],
            seq![
                KeyAction::Key(KeyCode::No), KeyAction::Key(KeyCode::No),
                KeyAction::Key(KeyCode::No), KeyAction::Key(KeyCode::No),
                KeyAction::Key(KeyCode::No), KeyAction::Key(KeyCode::No),
                KeyAction::Key(KeyCode::No), KeyAction::Key(KeyCode::No),
                KeyAction::Key(KeyCode::No), KeyAction::Key(KeyCode::No),
                KeyAction::Key(KeyCode::No), KeyAction::Key(KeyCode::No),
            ],
            seq![
                KeyAction::Key(KeyCode::No), KeyAction::Key(KeyCode::No),
                KeyAction::Key(KeyCode::No), KeyAction::Transparent, KeyAction::Transparent,
                KeyAction::Transparent, KeyAction::Transparent, KeyAction::Transparent,
                KeyAction::Transparent, KeyAction::Key(KeyCode::No), KeyAction::Key(KeyCode::No),
                KeyAction::Key(KeyCode::No),
            ],
        ],
        // gaming base layer
        seq![
            seq![
                KeyAction::Key(KeyCode::Tab), KeyAction::Key(KeyCode::Q),
                KeyAction::Key(KeyCode::W), KeyAction::Key(KeyCode::E), KeyAction::Key(KeyCode::R),
                KeyAction::Key(KeyCode::T), KeyAction::Key(KeyCode::Y), KeyAction::Key(KeyCode::U),
                KeyAction::Key(KeyCode::I), KeyAction::Key(KeyCode::O), KeyAction::Key(KeyCode::P),
                KeyAction::LayerSwitch(0),
            ],
            seq![
                KeyAction::Key(KeyCode::LCtrl), KeyAction::Key(KeyCode::A),
                KeyAction::Key(KeyCode::S), KeyAction::Key(KeyCode::D), KeyAction::Key(KeyCode::F),
                KeyAction::Key(KeyCode::G), KeyAction::Key(KeyCode::H), KeyAction::Key(KeyCode::J),
                KeyAction::Key(KeyCode::K), KeyAction::Key(KeyCode::L),
                KeyAction::Key(KeyCode::No), KeyAction::Key(KeyCode::No),
            ],
            seq![
                KeyAction::Key(KeyCode::LShift), KeyAction::Key(KeyCode::Z),
                KeyAction::Key(KeyCode::X), KeyAction::Key(KeyCode::C), KeyAction::Key(KeyCode::V),
                KeyAction::Key(KeyCode::B), KeyAction::Key(KeyCode::N), KeyAction::Key(KeyCode::M),
                KeyAction::Key(KeyCode::Comma), KeyAction::Key(KeyCode::Dot),
                KeyAction::Key(KeyCode::No), KeyAction::Key(KeyCode::No),
            ],
            seq![
                KeyAction::Key(KeyCode::No), KeyAction::Key(KeyCode::No),
                KeyAction::Key(KeyCode::No), KeyAction::Key(KeyCode::LAlt),
                KeyAction::LayerWhileHeld(4), KeyAction::Key(KeyCode::Space),
                KeyAction::KeyOrLayer(KeyCode::Enter, 2), KeyAction::Key(KeyCode::Tab),
                KeyAction::Key(KeyCode::Delete), KeyAction::Key(KeyCode::No),
                KeyAction::Key(KeyCode::No), KeyAction::Key(KeyCode::No),
            ],
        ],
        // upper gaming layer
        seq![
            seq![
                KeyAction::Key(KeyCode::Escape), KeyAction::Transparent, KeyAction::Transparent,
                KeyAction::Transparent, KeyAction::Transparent, KeyAction::Transparent,
                KeyAction::Transparent, KeyAction::Transparent, KeyAction::Transparent,
                KeyAction::Transparent, KeyAction::Transparent, KeyAction::Transparent,
            ],
            seq![
                KeyAction::Key(KeyCode::CapsLock), KeyAction::Key(KeyCode::Kp1),
                KeyAction::Key(KeyCode::Kp2), KeyAction::Key(KeyCode::Kp3),
                KeyAction::Key(KeyCode::Kp4), KeyAction::Key(KeyCode::Kp5),
                KeyAction::Key(KeyCode::Kp6), KeyAction::Key(KeyCode::Kp7),
                KeyAction::Key(KeyCode::Kp8), KeyAction::Key(KeyCode::Kp9),
                KeyAction::Key(KeyCode::Kp0), KeyAction::Transparent,
            ],
            seq![
                KeyAction::Transparent, KeyAction::Key(KeyCode::Kp6), KeyAction::Key(KeyCode::Kp7),
                KeyAction::Key(KeyCode::Kp8), KeyAction::Key(KeyCode::Kp9),
                KeyAction::Key(KeyCode::Kp0), KeyAction::Transparent, KeyAction::Transparent,
                KeyAction::Transparent, KeyAction::Transparent, KeyAction::Transparent,
                KeyAction::Transparent,
            ],
            seq![
                KeyAction::Transparent, KeyAction::Transparent, KeyAction::Transparent,
                KeyAction::Transparent, KeyAction::Transparent, KeyAction::Transparent,
                KeyAction::Transparent, KeyAction::Transparent, KeyAction::Transparent,
                KeyAction::Transparent, KeyAction::Transparent, KeyAction::Transparent,
            ],
        ],
    ]
}

/// What the default keymap does at a position.
pub open spec fn default_action(layer: int, row: int, col: int) -> KeyAction {
    default_layers()[layer][row][col]
}

/// Whether `layer` is layer `index` of the default keymap.
pub open spec fn is_default_layer(layer: Layer, index: int) -> bool {
    forall|row: int, col: int|
        on_matrix(row, col) ==> #[trigger] layer[row][col] == default_action(index, row, col)
}

/// The base layer: letters, with the home row doubling as modifiers.
fn base_layer() -> (layer: Layer)
    ensures
        is_default_layer(layer, 0),
{
    let layer: Layer = [
        [
            KeyAction::Key(KeyCode::No), KeyAction::Key(KeyCode::Q), KeyAction::Key(KeyCode::W),
            KeyAction::Key(KeyCode::E), KeyAction::Key(KeyCode::R), KeyAction::Key(KeyCode::T),
            KeyAction::Key(KeyCode::Y), KeyAction::Key(KeyCode::U), KeyAction::Key(KeyCode::I),
            KeyAction::Key(KeyCode::O), KeyAction::Key(KeyCode::P), KeyAction::LayerSwitch(3),
        ],
        [
            KeyAction::Key(KeyCode::No), KeyAction::HomeRow(KeyCode::A, Modifier::LeftAlt),
            KeyAction::HomeRow(KeyCode::S, Modifier::LeftGui),
            KeyAction::HomeRow(KeyCode::D, Modifier::LeftCtrl),
            KeyAction::HomeRow(KeyCode::F, Modifier::LeftShift), KeyAction::Key(KeyCode::G),
            KeyAction::Key(KeyCode::H), KeyAction::HomeRow(KeyCode::J, Modifier::LeftShift),
            KeyAction::HomeRow(KeyCode::K, Modifier::LeftCtrl),
            KeyAction::HomeRow(KeyCode::L, Modifier::LeftGui),
            KeyAction::HomeRow(KeyCode::Semicolon, Modifier::LeftAlt),
            KeyAction::Key(KeyCode::Quote),
        ],
        [
            KeyAction::Key(KeyCode::No), KeyAction::Key(KeyCode::Z), KeyAction::Key(KeyCode::X),
            KeyAction::Key(KeyCode::C), KeyAction::Key(KeyCode::V), KeyAction::Key(KeyCode::B),
            KeyAction::Key(KeyCode::N), KeyAction::Key(KeyCode::M), KeyAction::Key(KeyCode::Comma),
            KeyAction::Key(KeyCode::Dot), KeyAction::Key(KeyCode::Slash),
            KeyAction::Key(KeyCode::Backslash),
        ],
        [
            KeyAction::Key(KeyCode::No), KeyAction::Key(KeyCode::No), KeyAction::Key(KeyCode::No),
            KeyAction::Key(KeyCode::Backspace), KeyAction::Key(KeyCode::Escape),
            KeyAction::KeyOrLayer(KeyCode::Space, 1), KeyAction::KeyOrLayer(KeyCode::Enter, 2),
            KeyAction::Key(KeyCode::Tab), KeyAction::Key(KeyCode::Delete),
            KeyAction::Key(KeyCode::No), KeyAction::No, KeyAction::Key(KeyCode::No),
        ],
    ];
    assert forall|row: int, col: int| on_matrix(row, col) implies #[trigger] layer[row][col]
        == default_action(0, row, col) by {}
    layer
}

/// The number layer: digits and brackets.
fn number_layer() -> (layer: Layer)
    ensures
        is_default_layer(layer, 1),
{
    let layer: Layer = [
        [
            KeyAction::Transparent, KeyAction::Transparent, KeyAction::Transparent,
            KeyAction::Key(KeyCode::LeftBracket), KeyAction::Key(KeyCode::RightBracket),
            KeyAction::Key(KeyCode::Grave),
            KeyAction::WithModifier(KeyCode::Grave, Modifier::LeftShift),
            KeyAction::WithModifier(KeyCode::LeftBracket, Modifier::LeftShift),
            KeyAction::WithModifier(KeyCode::RightBracket, Modifier::LeftShift),
            KeyAction::Transparent, KeyAction::Transparent, KeyAction::Transparent,
        ],
        [
            KeyAction::Key(KeyCode::CapsLock), KeyAction::Key(KeyCode::Kc1),
            KeyAction::Key(KeyCode::Kc2), KeyAction::Key(KeyCode::Kc3),
            KeyAction::Key(KeyCode::Kc4), KeyAction::Key(KeyCode::Kc5),
            KeyAction::Key(KeyCode::Kc6), KeyAction::Key(KeyCode::Kc7),
            KeyAction::Key(KeyCode::Kc8), KeyAction::Key(KeyCode::Kc9),
            KeyAction::Key(KeyCode::Kc0), KeyAction::Transparent,
        ],
        [
            KeyAction::Transparent, KeyAction::Transparent, KeyAction::Transparent,
            KeyAction::Key(KeyCode::Enter), KeyAction::Key(KeyCode::Minus),
            KeyAction::WithModifier(KeyCode::Minus, Modifier::LeftShift),
            KeyAction::Key(KeyCode::KpEqual), KeyAction::Key(KeyCode::KpPlus),
            KeyAction::Transparent, KeyAction::Transparent, KeyAction::Transparent,
            KeyAction::Transparent,
        ],
        [
            KeyAction::Key(KeyCode::No), KeyAction::Key(KeyCode::No), KeyAction::Key(KeyCode::No),
            KeyAction::Transparent, KeyAction::Transparent, KeyAction::Transparent,
            KeyAction::Transparent, KeyAction::Transparent, KeyAction::Transparent,
            KeyAction::Key(KeyCode::No), KeyAction::Key(KeyCode::No), KeyAction::Key(KeyCode::No),
        ],
    ];
    assert forall|row: int, col: int| on_matrix(row, col) implies #[trigger] layer[row][col]
        == default_action(1, row, col) by {}
    layer
}

/// The navigation layer: arrows and paging.
fn navigation_layer() -> (layer: Layer)
    ensures
        is_default_layer(layer, 2),
{
    let layer: Layer = [
        [
            KeyAction::Key(KeyCode::No), KeyAction::Key(KeyCode::No), KeyAction::Key(KeyCode::No),
            KeyAction::Key(KeyCode::No), KeyAction::Key(KeyCode::No), KeyAction::Key(KeyCode::No),
            KeyAction::Key(KeyCode::Home), KeyAction::Key(KeyCode::PageDown),
            KeyAction::Key(KeyCode::PageUp), KeyAction::Key(KeyCode::End),
            KeyAction::Key(KeyCode::No), KeyAction::Key(KeyCode::No),
        ],
        [
            KeyAction::Key(KeyCode::No), KeyAction::Key(KeyCode::No), KeyAction::Key(KeyCode::No),
            KeyAction::Key(KeyCode::No), KeyAction::Key(KeyCode::No), KeyAction::Key(KeyCode::No),
            KeyAction::Key(KeyCode::Left), KeyAction::Key(KeyCode::Down),
            KeyAction::Key(KeyCode::Up), KeyAction::Key(KeyCode::Right),
            KeyAction::Key(KeyCode::No), KeyAction::Key(KeyCode::No),
        ],
        [
            KeyAction::Key(KeyCode::No), KeyAction::Key(KeyCode::No), KeyAction::Key(KeyCode::No),
            KeyAction::Key(KeyCode::No), KeyAction::Key(KeyCode::No), KeyAction::Key(KeyCode::No),
            KeyAction::Key(KeyCode::No), KeyAction::Key(KeyCode::No), KeyAction::Key(KeyCode::No),
            KeyAction::Key(KeyCode::No), KeyAction::Key(KeyCode::No), KeyAction::Key(KeyCode::No),
        ],
        [
            KeyAction::Key(KeyCode::No), KeyAction::Key(KeyCode::No), KeyAction::Key(KeyCode::No),
            KeyAction::Transparent, KeyAction::Transparent, KeyAction::Transparent,
            KeyAction::Transparent, KeyAction::Transparent, KeyAction::Transparent,
            KeyAction::Key(KeyCode::No), KeyAction::Key(KeyCode::No), KeyAction::Key(KeyCode::No),
        ],
    ];
    assert forall|row: int, col: int| on_matrix(row, col) implies #[trigger] layer[row][col]
        == default_action(2, row, col) by {}
    layer
}

/// The gaming base layer: plain letters, no key doubles as a modifier.
fn gaming_layer() -> (layer: Layer)
    ensures
        is_default_layer(layer, 3),
{
    let layer: Layer = [
        [
            KeyAction::Key(KeyCode::Tab), KeyAction::Key(KeyCode::Q), KeyAction::Key(KeyCode::W),
            KeyAction::Key(KeyCode::E), KeyAction::Key(KeyCode::R), KeyAction::Key(KeyCode::T),
            KeyAction::Key(KeyCode::Y), KeyAction::Key(KeyCode::U), KeyAction::Key(KeyCode::I),
            KeyAction::Key(KeyCode::O), KeyAction::Key(KeyCode::P), KeyAction::LayerSwitch(0),
        ],
        [
            KeyAction::Key(KeyCode::LCtrl), KeyAction::Key(KeyCode::A), KeyAction::Key(KeyCode::S),
            KeyAction::Key(KeyCode::D), KeyAction::Key(KeyCode::F), KeyAction::Key(KeyCode::G),
            KeyAction::Key(KeyCode::H), KeyAction::Key(KeyCode::J), KeyAction::Key(KeyCode::K),
            KeyAction::Key(KeyCode::L), KeyAction::Key(KeyCode::No), KeyAction::Key(KeyCode::No),
        ],
        [
            KeyAction::Key(KeyCode::LShift), KeyAction::Key(KeyCode::Z),
            KeyAction::Key(KeyCode::X), KeyAction::Key(KeyCode::C), KeyAction::Key(KeyCode::V),
            KeyAction::Key(KeyCode::B), KeyAction::Key(KeyCode::N), KeyAction::Key(KeyCode::M),
            KeyAction::Key(KeyCode::Comma), KeyAction::Key(KeyCode::Dot),
            KeyAction::Key(KeyCode::No), KeyAction::Key(KeyCode::No),
        ],
        [
            KeyAction::Key(KeyCode::No), KeyAction::Key(KeyCode::No), KeyAction::Key(KeyCode::No),
            KeyAction::Key(KeyCode::LAlt), KeyAction::LayerWhileHeld(4),
            KeyAction::Key(KeyCode::Space), KeyAction::KeyOrLayer(KeyCode::Enter, 2),
            KeyAction::Key(KeyCode::Tab), KeyAction::Key(KeyCode::Delete),
            KeyAction::Key(KeyCode::No), KeyAction::Key(KeyCode::No), KeyAction::Key(KeyCode::No),
        ],
    ];
    assert forall|row: int, col: int| on_matrix(row, col) implies #[trigger] layer[row][col]
        == default_action(3, row, col) by {}
    layer
}

/// The upper gaming layer: the keypad.
fn gaming_upper_layer() -> (layer: Layer)
    ensures
        is_default_layer(layer, 4),
{
    let layer: Layer = [
        [
            KeyAction::Key(KeyCode::Escape), KeyAction::Transparent, KeyAction::Transparent,
            KeyAction::Transparent, KeyAction::Transparent, KeyAction::Transparent,
            KeyAction::Transparent, KeyAction::Transparent, KeyAction::Transparent,
            KeyAction::Transparent, KeyAction::Transparent, KeyAction::Transparent,
        ],
        [
            KeyAction::Key(KeyCode::CapsLock), KeyAction::Key(KeyCode::Kp1),
            KeyAction::Key(KeyCode::Kp2), KeyAction::Key(KeyCode::Kp3),
            KeyAction::Key(KeyCode::Kp4), KeyAction::Key(KeyCode::Kp5),
            KeyAction::Key(KeyCode::Kp6), KeyAction::Key(KeyCode::Kp7),
            KeyAction::Key(KeyCode::Kp8), KeyAction::Key(KeyCode::Kp9),
            KeyAction::Key(KeyCode::Kp0), KeyAction::Transparent,
        ],
        [
            KeyAction::Transparent, KeyAction::Key(KeyCode::Kp6), KeyAction::Key(KeyCode::Kp7),
            KeyAction::Key(KeyCode::Kp8), KeyAction::Key(KeyCode::Kp9),
            KeyAction::Key(KeyCode::Kp0), KeyAction::Transparent, KeyAction::Transparent,
            KeyAction::Transparent, KeyAction::Transparent, KeyAction::Transparent,
            KeyAction::Transparent,
        ],
        [
            KeyAction::Transparent, KeyAction::Transparent, KeyAction::Transparent,
            KeyAction::Transparent, KeyAction::Transparent, KeyAction::Transparent,
            KeyAction::Transparent, KeyAction::Transparent, KeyAction::Transparent,
            KeyAction::Transparent, KeyAction::Transparent, KeyAction::Transparent,
        ],
    ];
    assert forall|row: int, col: int| on_matrix(row, col) implies #[trigger] layer[row][col]
        == default_action(4, row, col) by {}
    layer
}

/// The default keymap: base, number, navigation, gaming and upper gaming
/// layer.
pub fn get_default_keymap() -> (keymap: Keymap)
    ensures
        forall|layer: int, row: int, col: int|
            0 <= layer < NUM_LAYER && on_matrix(row, col) ==> #[trigger] keymap[layer][row][col]
                == default_action(layer, row, col),
        usable(keymap),
{
    let keymap: Keymap = [
        base_layer(),
        number_layer(),
        navigation_layer(),
        gaming_layer(),
        gaming_upper_layer(),
    ];
    proof {
        assert forall|layer: int, row: int, col: int|
            0 <= layer < NUM_LAYER && on_matrix(row, col) implies #[trigger] keymap[layer][row][col]
            == default_action(layer, row, col) by {
            assert(is_default_layer(keymap[layer], layer));
        }
        default_keymap_is_usable(keymap);
    }
    keymap
}

/// What `usable` asks of one position.
pub open spec fn position_ok(keymap: Keymap, layer: int, row: int, col: int) -> bool {
    let action = keymap[layer][row][col];
    &&& action.layer() matches Some(n) ==> n < NUM_LAYER
    &&& layer == 0 ==> action != KeyAction::Transparent
    &&& action.held_layer() matches Some(n) ==> n < NUM_LAYER && keymap[n as int][row][col]
        == KeyAction::Transparent
    &&& action matches KeyAction::LayerSwitch(n) ==> n < NUM_LAYER && n != layer
        && keymap[n as int][row][col] is LayerSwitch
}

/// The default assignment is usable.
pub proof fn default_keymap_is_usable(keymap: Keymap)
    requires
        forall|layer: int, row: int, col: int|
            0 <= layer < NUM_LAYER && on_matrix(row, col) ==> #[trigger] keymap[layer][row][col]
                == default_action(layer, row, col),
    ensures
        usable(keymap),
{
    assert forall|layer: int, row: int, col: int|
        0 <= layer < NUM_LAYER && on_matrix(row, col) implies #[trigger] position_ok(
        keymap,
        layer,
        row,
        col,
    ) by {
        lemma_position(keymap, layer, row, col);
    }
    usable_is_position_by_position(keymap);
}

proof fn lemma_position(keymap: Keymap, layer: int, row: int, col: int)
    requires
        0 <= layer < NUM_LAYER,
        on_matrix(row, col),
        forall|l: int, r: int, c: int|
            0 <= l < NUM_LAYER && on_matrix(r, c) ==> #[trigger] keymap[l][r][c] == default_action(
                l,
                r,
                c,
            ),
    ensures
        position_ok(keymap, layer, row, col),
{
    let action = keymap[layer][row][col];
    assert(action == default_action(layer, row, col));
    match action.layer() {
        Some(n) => {
            assert(n < NUM_LAYER);
            assert(keymap[n as int][row][col] == default_action(n as int, row, col));
        },
        None => {},
    }
}

/// What `usable` asks of every position is what it asks of each.
pub proof fn usable_is_position_by_position(keymap: Keymap)
    ensures
        usable(keymap) <==> forall|layer: int, row: int, col: int|
            0 <= layer < NUM_LAYER && on_matrix(row, col) ==> #[trigger] position_ok(
                keymap,
                layer,
                row,
                col,
            ),
{
    if usable(keymap) {
        assert forall|layer: int, row: int, col: int|
            0 <= layer < NUM_LAYER && on_matrix(row, col) implies #[trigger] position_ok(
            keymap,
            layer,
            row,
            col,
        ) by {
            assert(layers_in_range(keymap[layer]));
            let action = keymap[layer][row][col];
            assert(action.layer() matches Some(n) ==> n < NUM_LAYER);
            if layer == 0 {
                assert(keymap[0][row][col] != KeyAction::Transparent);
            }
        }
    }
    if forall|layer: int, row: int, col: int|
        0 <= layer < NUM_LAYER && on_matrix(row, col) ==> #[trigger] position_ok(
            keymap,
            layer,
            row,
            col,
        ) {
        assert forall|layer: int| 0 <= layer < NUM_LAYER implies layers_in_range(
            #[trigger] keymap[layer],
        ) by {
            assert forall|row: int, col: int| on_matrix(row, col) implies ((
            #[trigger] keymap[layer][row][col]).layer() matches Some(n) ==> n < NUM_LAYER) by {
                assert(position_ok(keymap, layer, row, col));
            }
        }
        assert forall|row: int, col: int| on_matrix(row, col) implies #[trigger] keymap[0][row][col]
            != KeyAction::Transparent by {
            assert(position_ok(keymap, 0, row, col));
        }
        assert forall|layer: int, row: int, col: int|
            0 <= layer < NUM_LAYER && on_matrix(row, col) implies ((
        #[trigger] keymap[layer][row][col]).held_layer() matches Some(n) ==> n < NUM_LAYER
            && keymap[n as int][row][col] == KeyAction::Transparent) by {
            assert(position_ok(keymap, layer, row, col));
        }
        assert forall|layer: int, row: int, col: int|
            0 <= layer < NUM_LAYER && on_matrix(row, col) implies (
        #[trigger] keymap[layer][row][col] matches KeyAction::LayerSwitch(n) ==> n < NUM_LAYER && n
            != layer && keymap[n as int][row][col] is LayerSwitch) by {
            assert(position_ok(keymap, layer, row, col));
        }
    }
}

fn position_is_ok(keymap: &Keymap, layer: usize, row: usize, col: usize) -> (ok: bool)
    requires
        layer < NUM_LAYER,
        row < ROW,
        col < COL,
    ensures
        ok == position_ok(*keymap, layer as int, row as int, col as int),
{
    let action: KeyAction = keymap[layer][row][col];
    match action {
        KeyAction::Transparent => layer != 0,
        KeyAction::LayerWhileHeld(n) => {
            (n as usize) < NUM_LAYER && keymap[n as usize][row][col] == KeyAction::Transparent
        },
        KeyAction::KeyOrLayer(_, n) => {
            (n as usize) < NUM_LAYER && keymap[n as usize][row][col] == KeyAction::Transparent
        },
        KeyAction::LayerSwitch(n) => {
            if (n as usize) < NUM_LAYER && n as usize != layer {
                match keymap[n as usize][row][col] {
                    KeyAction::LayerSwitch(_) => true,
                    _ => false,
                }
            } else {
                false
            }
        },
        _ => true,
    }
}

/// Whether a keymap can be used as it stands.
pub fn is_usable(keymap: &Keymap) -> (ok: bool)
    ensures
        ok == usable(*keymap),
{
    proof {
        usable_is_position_by_position(*keymap);
    }
    let mut layer: usize = 0;
    while layer < NUM_LAYER
        invariant
            layer <= NUM_LAYER,
            forall|l: int, r: int, c: int|
                0 <= l < layer && on_matrix(r, c) ==> #[trigger] position_ok(*keymap, l, r, c),
        decreases NUM_LAYER - layer,
    {
        let mut row: usize = 0;
        while row < ROW
            invariant
                layer < NUM_LAYER,
                row <= ROW,
                forall|l: int, r: int, c: int|
                    0 <= l < layer && on_matrix(r, c) ==> #[trigger] position_ok(*keymap, l, r, c),
                forall|r: int, c: int|
                    0 <= r < row && 0 <= c < COL ==> #[trigger] position_ok(
                        *keymap,
                        layer as int,
                        r,
                        c,
                    ),
            decreases ROW - row,
        {
            let mut col: usize = 0;
            while col < COL
                invariant
                    layer < NUM_LAYER,
                    row < ROW,
                    col <= COL,
                    forall|c: int|
                        0 <= c < col ==> #[trigger] position_ok(
                            *keymap,
                            layer as int,
                            row as int,
                            c,
                        ),
                decreases COL - col,
            {
                if !position_is_ok(keymap, layer, row, col) {
                    return false;
                }
                col += 1;
            }
            row += 1;
        }
        layer += 1;
    }
    true
}

/// The keymap to run with: the one that storage holds, if it holds one and
/// that one is usable, and the default keymap otherwise. A keymap that
/// cannot be read or used never stops the keyboard.
pub fn keymap_or_default(stored: Option<Keymap>) -> (keymap: Keymap)
    ensures
        usable(keymap),
        stored matches Some(k) ==> (usable(k) ==> keymap == k),
        !(stored is Some && usable(stored->Some_0)) ==> forall|layer: int, row: int, col: int|
            0 <= layer < NUM_LAYER && on_matrix(row, col) ==> #[trigger] keymap[layer][row][col]
                == default_action(layer, row, col),
{
    match stored {
        Some(k) => {
            if is_usable(&k) {
                k
            } else {
                get_default_keymap()
            }
        },
        None => get_default_keymap(),
    }
}

} // verus!
