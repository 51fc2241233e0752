//! Physical key codes, their names in configuration, and the hotkey
//! registrations that this process holds.
use vstd::prelude::*;
use crate::message::Message;

verus! {

/// A physical key, as the platform numbers it.
#[derive(Clone, Copy, Debug, Hash, PartialEq, Eq, Structural)]
pub enum VirtualKey {
    LButton,
    RButton,
    Cancel,
    MButton,
    XButton1,
    XButton2,
    Back,
    Tab,
    Clear,
    Return,
    Shift,
    Control,
    Menu,
    Pause,
    Capital,
    Escape,
    Convert,
    NonConvert,
    Accept,
    ModeChange,
    Space,
    Prior,
    Next,
    End,
    Home,
    Left,
    Up,
    Right,
    Down,
    Select,
    Print,
    Execute,
    Snapshot,
    Insert,
    Delete,
    Help,
    Zero,
    One,
    Two,
    Three,
    Four,
    Five,
    Six,
    Seven,
    Eight,
    Nine,
    A,
    B,
    C,
    D,
    E,
    F,
    G,
    H,
    I,
    J,
    K,
    L,
    M,
    N,
    O,
    P,
    Q,
    R,
    S,
    T,
    U,
    V,
    W,
    X,
    Y,
    Z,
    LWin,
    RWin,
    Apps,
    Sleep,
    NumpadZero,
    NumpadOne,
    NumpadTwo,
    NumpadThree,
    NumpadFour,
    NumpadFive,
    NumpadSix,
    NumpadSeven,
    NumpadEight,
    NumpadNine,
    Multiply,
    Add,
    Separator,
    Subtract,
    Decimal,
    Divide,
    F1,
    F2,
    F3,
    F4,
    F5,
    F6,
    F7,
    F8,
    F9,
    F10,
    F11,
    F12,
    F13,
    F14,
    F15,
    F16,
    F17,
    F18,
    F19,
    F20,
    F21,
    F22,
    F23,
    F24,
    NumLock,
    Scroll,
    LShift,
    RShift,
    LControl,
    RControl,
    LMenu,
    RMenu,
    BrowserBack,
    BrowserForward,
    BrowserRefresh,
    BrowserStop,
    BrowserSearch,
    BrowserFavorites,
    BrowserHome,
    VolumeMute,
    VolumeDown,
    VolumeUp,
    MediaNextTrack,
    MediaPrevTrack,
    MediaStop,
    MediaPlayPause,
    LaunchMail,
    LaunchMediaSelect,
    LaunchApp1,
    LaunchApp2,
}

/// The platform's code for a key.
#[verifier::opaque]
pub open spec fn key_code(k: VirtualKey) -> u32 {
    match k {
        VirtualKey::LButton => 0x01,
        VirtualKey::RButton => 0x02,
        VirtualKey::Cancel => 0x03,
        VirtualKey::MButton => 0x04,
        VirtualKey::XButton1 => 0x05,
        VirtualKey::XButton2 => 0x06,
        VirtualKey::Back => 0x08,
        VirtualKey::Tab => 0x09,
        VirtualKey::Clear => 0x0C,
        VirtualKey::Return => 0x0D,
        VirtualKey::Shift => 0x10,
        VirtualKey::Control => 0x11,
        VirtualKey::Menu => 0x12,
        VirtualKey::Pause => 0x13,
        VirtualKey::Capital => 0x14,
        VirtualKey::Escape => 0x1B,
        VirtualKey::Convert => 0x1C,
        VirtualKey::NonConvert => 0x1D,
        VirtualKey::Accept => 0x1E,
        VirtualKey::ModeChange => 0x1F,
        VirtualKey::Space => 0x20,
        VirtualKey::Prior => 0x21,
        VirtualKey::Next => 0x22,
        VirtualKey::End => 0x23,
        VirtualKey::Home => 0x24,
        VirtualKey::Left => 0x25,
        VirtualKey::Up => 0x26,
        VirtualKey::Right => 0x27,
        VirtualKey::Down => 0x28,
        VirtualKey::Select => 0x29,
        VirtualKey::Print => 0x2A,
        VirtualKey::Execute => 0x2B,
        VirtualKey::Snapshot => 0x2C,
        VirtualKey::Insert => 0x2D,
        VirtualKey::Delete => 0x2E,
        VirtualKey::Help => 0x2F,
        VirtualKey::Zero => 0x30,
        VirtualKey::One => 0x31,
        VirtualKey::Two => 0x32,
        VirtualKey::Three => 0x33,
        VirtualKey::Four => 0x34,
        VirtualKey::Five => 0x35,
        VirtualKey::Six => 0x36,
        VirtualKey::Seven => 0x37,
        VirtualKey::Eight => 0x38,
        VirtualKey::Nine => 0x39,
        VirtualKey::A => 0x41,
        VirtualKey::B => 0x42,
        VirtualKey::C => 0x43,
        VirtualKey::D => 0x44,
        VirtualKey::E => 0x45,
        VirtualKey::F => 0x46,
        VirtualKey::G => 0x47,
        VirtualKey::H => 0x48,
        VirtualKey::I => 0x49,
        VirtualKey::J => 0x4A,
        VirtualKey::K => 0x4B,
        VirtualKey::L => 0x4C,
        VirtualKey::M => 0x4D,
        VirtualKey::N => 0x4E,
        VirtualKey::O => 0x4F,
        VirtualKey::P => 0x50,
        VirtualKey::Q => 0x51,
        VirtualKey::R => 0x52,
        VirtualKey::S => 0x53,
        VirtualKey::T => 0x54,
        VirtualKey::U => 0x55,
        VirtualKey::V => 0x56,
        VirtualKey::W => 0x57,
        VirtualKey::X => 0x58,
        VirtualKey::Y => 0x59,
        VirtualKey::Z => 0x5A,
        VirtualKey::LWin => 0x5B,
        VirtualKey::RWin => 0x5C,
        VirtualKey::Apps => 0x5D,
        VirtualKey::Sleep => 0x5F,
        VirtualKey::NumpadZero => 0x60,
        VirtualKey::NumpadOne => 0x61,
        VirtualKey::NumpadTwo => 0x62,
        VirtualKey::NumpadThree => 0x63,
        VirtualKey::NumpadFour => 0x64,
        VirtualKey::NumpadFive => 0x65,
        VirtualKey::NumpadSix => 0x66,
        VirtualKey::NumpadSeven => 0x67,
        VirtualKey::NumpadEight => 0x68,
        VirtualKey::NumpadNine => 0x69,
        VirtualKey::Multiply => 0x6A,
        VirtualKey::Add => 0x6B,
        VirtualKey::Separator => 0x6C,
        VirtualKey::Subtract => 0x6D,
        VirtualKey::Decimal => 0x6E,
        VirtualKey::Divide => 0x6F,
        VirtualKey::F1 => 0x70,
        VirtualKey::F2 => 0x71,
        VirtualKey::F3 => 0x72,
        VirtualKey::F4 => 0x73,
        VirtualKey::F5 => 0x74,
        VirtualKey::F6 => 0x75,
        VirtualKey::F7 => 0x76,
        VirtualKey::F8 => 0x77,
        VirtualKey::F9 => 0x78,
        VirtualKey::F10 => 0x79,
        VirtualKey::F11 => 0x7A,
        VirtualKey::F12 => 0x7B,
        VirtualKey::F13 => 0x7C,
        VirtualKey::F14 => 0x7D,
        VirtualKey::F15 => 0x7E,
        VirtualKey::F16 => 0x7F,
        VirtualKey::F17 => 0x80,
        VirtualKey::F18 => 0x81,
        VirtualKey::F19 => 0x82,
        VirtualKey::F20 => 0x83,
        VirtualKey::F21 => 0x84,
        VirtualKey::F22 => 0x85,
        VirtualKey::F23 => 0x86,
        VirtualKey::F24 => 0x87,
        VirtualKey::NumLock => 0x90,
        VirtualKey::Scroll => 0x91,
        VirtualKey::LShift => 0xA0,
        VirtualKey::RShift => 0xA1,
        VirtualKey::LControl => 0xA2,
        VirtualKey::RControl => 0xA3,
        VirtualKey::LMenu => 0xA4,
        VirtualKey::RMenu => 0xA5,
        VirtualKey::BrowserBack => 0xA6,
        VirtualKey::BrowserForward => 0xA7,
        VirtualKey::BrowserRefresh => 0xA8,
        VirtualKey::BrowserStop => 0xA9,
        VirtualKey::BrowserSearch => 0xAA,
        VirtualKey::BrowserFavorites => 0xAB,
        VirtualKey::BrowserHome => 0xAC,
        VirtualKey::VolumeMute => 0xAD,
        VirtualKey::VolumeDown => 0xAE,
        VirtualKey::VolumeUp => 0xAF,
        VirtualKey::MediaNextTrack => 0xB0,
        VirtualKey::MediaPrevTrack => 0xB1,
        VirtualKey::MediaStop => 0xB2,
        VirtualKey::MediaPlayPause => 0xB3,
        VirtualKey::LaunchMail => 0xB4,
        VirtualKey::LaunchMediaSelect => 0xB5,
        VirtualKey::LaunchApp1 => 0xB6,
        VirtualKey::LaunchApp2 => 0xB7,
    }
}

/// The key with the given platform code, if there is one.
#[verifier::opaque]
pub open spec fn key_of_code(c: u32) -> Option<VirtualKey> {
    match c {
        0x01 => Some(VirtualKey::LButton),
        0x02 => Some(VirtualKey::RButton),
        0x03 => Some(VirtualKey::Cancel),
        0x04 => Some(VirtualKey::MButton),
        0x05 => Some(VirtualKey::XButton1),
        0x06 => Some(VirtualKey::XButton2),
        0x08 => Some(VirtualKey::Back),
        0x09 => Some(VirtualKey::Tab),
        0x0C => Some(VirtualKey::Clear),
        0x0D => Some(VirtualKey::Return),
        0x10 => Some(VirtualKey::Shift),
        0x11 => Some(VirtualKey::Control),
        0x12 => Some(VirtualKey::Menu),
        0x13 => Some(VirtualKey::Pause),
        0x14 => Some(VirtualKey::Capital),
        0x1B => Some(VirtualKey::Escape),
        0x1C => Some(VirtualKey::Convert),
        0x1D => Some(VirtualKey::NonConvert),
        0x1E => Some(VirtualKey::Accept),
        0x1F => Some(VirtualKey::ModeChange),
        0x20 => Some(VirtualKey::Space),
        0x21 => Some(VirtualKey::Prior),
        0x22 => Some(VirtualKey::Next),
        0x23 => Some(VirtualKey::End),
        0x24 => Some(VirtualKey::Home),
        0x25 => Some(VirtualKey::Left),
        0x26 => Some(VirtualKey::Up),
        0x27 => Some(VirtualKey::Right),
        0x28 => Some(VirtualKey::Down),
        0x29 => Some(VirtualKey::Select),
        0x2A => Some(VirtualKey::Print),
        0x2B => Some(VirtualKey::Execute),
        0x2C => Some(VirtualKey::Snapshot),
        0x2D => Some(VirtualKey::Insert),
        0x2E => Some(VirtualKey::Delete),
        0x2F => Some(VirtualKey::Help),
        0x30 => Some(VirtualKey::Zero),
        0x31 => Some(VirtualKey::One),
        0x32 => Some(VirtualKey::Two),
        0x33 => Some(VirtualKey::Three),
        0x34 => Some(VirtualKey::Four),
        0x35 => Some(VirtualKey::Five),
        0x36 => Some(VirtualKey::Six),
        0x37 => Some(VirtualKey::Seven),
        0x38 => Some(VirtualKey::Eight),
        0x39 => Some(VirtualKey::Nine),
        0x41 => Some(VirtualKey::A),
        0x42 => Some(VirtualKey::B),
        0x43 => Some(VirtualKey::C),
        0x44 => Some(VirtualKey::D),
        0x45 => Some(VirtualKey::E),
        0x46 => Some(VirtualKey::F),
        0x47 => Some(VirtualKey::G),
        0x48 => Some(VirtualKey::H),
        0x49 => Some(VirtualKey::I),
        0x4A => Some(VirtualKey::J),
        0x4B => Some(VirtualKey::K),
        0x4C => Some(VirtualKey::L),
        0x4D => Some(VirtualKey::M),
        0x4E => Some(VirtualKey::N),
        0x4F => Some(VirtualKey::O),
        0x50 => Some(VirtualKey::P),
        0x51 => Some(VirtualKey::Q),
        0x52 => Some(VirtualKey::R),
        0x53 => Some(VirtualKey::S),
        0x54 => Some(VirtualKey::T),
        0x55 => Some(VirtualKey::U),
        0x56 => Some(VirtualKey::V),
        0x57 => Some(VirtualKey::W),
        0x58 => Some(VirtualKey::X),
        0x59 => Some(VirtualKey::Y),
        0x5A => Some(VirtualKey::Z),
        0x5B => Some(VirtualKey::LWin),
        0x5C => Some(VirtualKey::RWin),
        0x5D => Some(VirtualKey::Apps),
        0x5F => Some(VirtualKey::Sleep),
        0x60 => Some(VirtualKey::NumpadZero),
        0x61 => Some(VirtualKey::NumpadOne),
        0x62 => Some(VirtualKey::NumpadTwo),
        0x63 => Some(VirtualKey::NumpadThree),
        0x64 => Some(VirtualKey::NumpadFour),
        0x65 => Some(VirtualKey::NumpadFive),
        0x66 => Some(VirtualKey::NumpadSix),
        0x67 => Some(VirtualKey::NumpadSeven),
        0x68 => Some(VirtualKey::NumpadEight),
        0x69 => Some(VirtualKey::NumpadNine),
        0x6A => Some(VirtualKey::Multiply),
        0x6B => Some(VirtualKey::Add),
        0x6C => Some(VirtualKey::Separator),
        0x6D => Some(VirtualKey::Subtract),
        0x6E => Some(VirtualKey::Decimal),
        0x6F => Some(VirtualKey::Divide),
        0x70 => Some(VirtualKey::F1),
        0x71 => Some(VirtualKey::F2),
        0x72 => Some(VirtualKey::F3),
        0x73 => Some(VirtualKey::F4),
        0x74 => Some(VirtualKey::F5),
        0x75 => Some(VirtualKey::F6),
        0x76 => Some(VirtualKey::F7),
        0x77 => Some(VirtualKey::F8),
        0x78 => Some(VirtualKey::F9),
        0x79 => Some(VirtualKey::F10),
        0x7A => Some(VirtualKey::F11),
        0x7B => Some(VirtualKey::F12),
        0x7C => Some(VirtualKey::F13),
        0x7D => Some(VirtualKey::F14),
        0x7E => Some(VirtualKey::F15),
        0x7F => Some(VirtualKey::F16),
        0x80 => Some(VirtualKey::F17),
        0x81 => Some(VirtualKey::F18),
        0x82 => Some(VirtualKey::F19),
        0x83 => Some(VirtualKey::F20),
        0x84 => Some(VirtualKey::F21),
        0x85 => Some(VirtualKey::F22),
        0x86 => Some(VirtualKey::F23),
        0x87 => Some(VirtualKey::F24),
        0x90 => Some(VirtualKey::NumLock),
        0x91 => Some(VirtualKey::Scroll),
        0xA0 => Some(VirtualKey::LShift),
        0xA1 => Some(VirtualKey::RShift),
        0xA2 => Some(VirtualKey::LControl),
        0xA3 => Some(VirtualKey::RControl),
        0xA4 => Some(VirtualKey::LMenu),
        0xA5 => Some(VirtualKey::RMenu),
        0xA6 => Some(VirtualKey::BrowserBack),
        0xA7 => Some(VirtualKey::BrowserForward),
        0xA8 => Some(VirtualKey::BrowserRefresh),
        0xA9 => Some(VirtualKey::BrowserStop),
        0xAA => Some(VirtualKey::BrowserSearch),
        0xAB => Some(VirtualKey::BrowserFavorites),
        0xAC => Some(VirtualKey::BrowserHome),
        0xAD => Some(VirtualKey::VolumeMute),
        0xAE => Some(VirtualKey::VolumeDown),
        0xAF => Some(VirtualKey::VolumeUp),
        0xB0 => Some(VirtualKey::MediaNextTrack),
        0xB1 => Some(VirtualKey::MediaPrevTrack),
        0xB2 => Some(VirtualKey::MediaStop),
        0xB3 => Some(VirtualKey::MediaPlayPause),
        0xB4 => Some(VirtualKey::LaunchMail),
        0xB5 => Some(VirtualKey::LaunchMediaSelect),
        0xB6 => Some(VirtualKey::LaunchApp1),
        0xB7 => Some(VirtualKey::LaunchApp2),
        _ => None,
    }
}

/// The key's name in configuration.
#[verifier::opaque]
pub open spec fn key_name(k: VirtualKey) -> Seq<char> {
    match k {
        VirtualKey::LButton => "LButton"@,
        VirtualKey::RButton => "RButton"@,
        VirtualKey::Cancel => "Cancel"@,
        VirtualKey::MButton => "MButton"@,
        VirtualKey::XButton1 => "XButton1"@,
        VirtualKey::XButton2 => "XButton2"@,
        VirtualKey::Back => "Back"@,
        VirtualKey::Tab => "Tab"@,
        VirtualKey::Clear => "Clear"@,
        VirtualKey::Return => "Return"@,
        VirtualKey::Shift => "Shift"@,
        VirtualKey::Control => "Control"@,
        VirtualKey::Menu => "Menu"@,
        VirtualKey::Pause => "Pause"@,
        VirtualKey::Capital => "Capital"@,
        VirtualKey::Escape => "Escape"@,
        VirtualKey::Convert => "Convert"@,
        VirtualKey::NonConvert => "NonConvert"@,
        VirtualKey::Accept => "Accept"@,
        VirtualKey::ModeChange => "ModeChange"@,
        VirtualKey::Space => "Space"@,
        VirtualKey::Prior => "Prior"@,
        VirtualKey::Next => "Next"@,
        VirtualKey::End => "End"@,
        VirtualKey::Home => "Home"@,
        VirtualKey::Left => "Left"@,
        VirtualKey::Up => "Up"@,
        VirtualKey::Right => "Right"@,
        VirtualKey::Down => "Down"@,
        VirtualKey::Select => "Select"@,
        VirtualKey::Print => "Print"@,
        VirtualKey::Execute => "Execute"@,
        VirtualKey::Snapshot => "Snapshot"@,
        VirtualKey::Insert => "Insert"@,
        VirtualKey::Delete => "Delete"@,
        VirtualKey::Help => "Help"@,
        VirtualKey::Zero => "0"@,
        VirtualKey::One => "1"@,
        VirtualKey::Two => "2"@,
        VirtualKey::Three => "3"@,
        VirtualKey::Four => "4"@,
        VirtualKey::Five => "5"@,
        VirtualKey::Six => "6"@,
        VirtualKey::Seven => "7"@,
        VirtualKey::Eight => "8"@,
        VirtualKey::Nine => "9"@,
        VirtualKey::A => "A"@,
        VirtualKey::B => "B"@,
        VirtualKey::C => "C"@,
        VirtualKey::D => "D"@,
        VirtualKey::E => "E"@,
        VirtualKey::F => "F"@,
        VirtualKey::G => "G"@,
        VirtualKey::H => "H"@,
        VirtualKey::I => "I"@,
        VirtualKey::J => "J"@,
        VirtualKey::K => "K"@,
        VirtualKey::L => "L"@,
        VirtualKey::M => "M"@,
        VirtualKey::N => "N"@,
        VirtualKey::O => "O"@,
        VirtualKey::P => "P"@,
        VirtualKey::Q => "Q"@,
        VirtualKey::R => "R"@,
        VirtualKey::S => "S"@,
        VirtualKey::T => "T"@,
        VirtualKey::U => "U"@,
        VirtualKey::V => "V"@,
        VirtualKey::W => "W"@,
        VirtualKey::X => "X"@,
        VirtualKey::Y => "Y"@,
        VirtualKey::Z => "Z"@,
        VirtualKey::LWin => "LWin"@,
        VirtualKey::RWin => "RWin"@,
        VirtualKey::Apps => "Apps"@,
        VirtualKey::Sleep => "Sleep"@,
        VirtualKey::NumpadZero => "NumPad0"@,
        VirtualKey::NumpadOne => "NumPad1"@,
        VirtualKey::NumpadTwo => "NumPad2"@,
        VirtualKey::NumpadThree => "NumPad3"@,
        VirtualKey::NumpadFour => "NumPad4"@,
        VirtualKey::NumpadFive => "NumPad5"@,
        VirtualKey::NumpadSix => "NumPad6"@,
        VirtualKey::NumpadSeven => "NumPad7"@,
        VirtualKey::NumpadEight => "NumPad8"@,
        VirtualKey::NumpadNine => "NumPad9"@,
        VirtualKey::Multiply => "*"@,
        VirtualKey::Add => "+"@,
        VirtualKey::Separator => "Separator"@,
        VirtualKey::Subtract => "-"@,
        VirtualKey::Decimal => "."@,
        VirtualKey::Divide => "/"@,
        VirtualKey::F1 => "F1"@,
        VirtualKey::F2 => "F2"@,
        VirtualKey::F3 => "F3"@,
        VirtualKey::F4 => "F4"@,
        VirtualKey::F5 => "F5"@,
        VirtualKey::F6 => "F6"@,
        VirtualKey::F7 => "F7"@,
        VirtualKey::F8 => "F8"@,
        VirtualKey::F9 => "F9"@,
        VirtualKey::F10 => "F10"@,
        VirtualKey::F11 => "F11"@,
        VirtualKey::F12 => "F12"@,
        VirtualKey::F13 => "F13"@,
        VirtualKey::F14 => "F14"@,
        VirtualKey::F15 => "F15"@,
        VirtualKey::F16 => "F16"@,
        VirtualKey::F17 => "F17"@,
        VirtualKey::F18 => "F18"@,
        VirtualKey::F19 => "F19"@,
        VirtualKey::F20 => "F20"@,
        VirtualKey::F21 => "F21"@,
        VirtualKey::F22 => "F22"@,
        VirtualKey::F23 => "F23"@,
        VirtualKey::F24 => "F24"@,
        VirtualKey::NumLock => "NumLock"@,
        VirtualKey::Scroll => "Scroll"@,
        VirtualKey::LShift => "LShift"@,
        VirtualKey::RShift => "RShift"@,
        VirtualKey::LControl => "LControl"@,
        VirtualKey::RControl => "RControl"@,
        VirtualKey::LMenu => "LMenu"@,
        VirtualKey::RMenu => "RMenu"@,
        VirtualKey::BrowserBack => "BrowserBack"@,
        VirtualKey::BrowserForward => "BrowserForward"@,
        VirtualKey::BrowserRefresh => "BrowserRefresh"@,
        VirtualKey::BrowserStop => "BrowserStop"@,
        VirtualKey::BrowserSearch => "BrowserSearch"@,
        VirtualKey::BrowserFavorites => "BrowserFavorites"@,
        VirtualKey::BrowserHome => "BrowserHome"@,
        VirtualKey::VolumeMute => "VolumeMute"@,
        VirtualKey::VolumeDown => "VolumeDown"@,
        VirtualKey::VolumeUp => "VolumeUp"@,
        VirtualKey::MediaNextTrack => "MediaNextTrack"@,
        VirtualKey::MediaPrevTrack => "MediaPrevTrack"@,
        VirtualKey::MediaStop => "MediaStop"@,
        VirtualKey::MediaPlayPause => "MediaPlayPause"@,
        VirtualKey::LaunchMail => "LaunchMail"@,
        VirtualKey::LaunchMediaSelect => "LaunchMediaSelect"@,
        VirtualKey::LaunchApp1 => "LaunchApp1"@,
        VirtualKey::LaunchApp2 => "LaunchApp2"@,
    }
}

/// Every key's code leads back to the key, and codes are below `0xB8`.
pub proof fn lemma_code_round_trip(k: VirtualKey)
    ensures
        key_of_code(key_code(k)) == Some(k),
        1 <= key_code(k) < 0xB8,
{
    reveal(key_of_code);
    reveal(key_code);
    match k {
        VirtualKey::LButton => {},
        VirtualKey::RButton => {},
        VirtualKey::Cancel => {},
        VirtualKey::MButton => {},
        VirtualKey::XButton1 => {},
        VirtualKey::XButton2 => {},
        VirtualKey::Back => {},
        VirtualKey::Tab => {},
        VirtualKey::Clear => {},
        VirtualKey::Return => {},
        VirtualKey::Shift => {},
        VirtualKey::Control => {},
        VirtualKey::Menu => {},
        VirtualKey::Pause => {},
        VirtualKey::Capital => {},
        VirtualKey::Escape => {},
        VirtualKey::Convert => {},
        VirtualKey::NonConvert => {},
        VirtualKey::Accept => {},
        VirtualKey::ModeChange => {},
        VirtualKey::Space => {},
        VirtualKey::Prior => {},
        VirtualKey::Next => {},
        VirtualKey::End => {},
        VirtualKey::Home => {},
        VirtualKey::Left => {},
        VirtualKey::Up => {},
        VirtualKey::Right => {},
        VirtualKey::Down => {},
        VirtualKey::Select => {},
        VirtualKey::Print => {},
        VirtualKey::Execute => {},
        VirtualKey::Snapshot => {},
        VirtualKey::Insert => {},
        VirtualKey::Delete => {},
        VirtualKey::Help => {},
        VirtualKey::Zero => {},
        VirtualKey::One => {},
        VirtualKey::Two => {},
        VirtualKey::Three => {},
        VirtualKey::Four => {},
        VirtualKey::Five => {},
        VirtualKey::Six => {},
        VirtualKey::Seven => {},
        VirtualKey::Eight => {},
        VirtualKey::Nine => {},
        VirtualKey::A => {},
        VirtualKey::B => {},
        VirtualKey::C => {},
        VirtualKey::D => {},
        VirtualKey::E => {},
        VirtualKey::F => {},
        VirtualKey::G => {},
        VirtualKey::H => {},
        VirtualKey::I => {},
        VirtualKey::J => {},
        VirtualKey::K => {},
        VirtualKey::L => {},
        VirtualKey::M => {},
        VirtualKey::N => {},
        VirtualKey::O => {},
        VirtualKey::P => {},
        VirtualKey::Q => {},
        VirtualKey::R => {},
        VirtualKey::S => {},
        VirtualKey::T => {},
        VirtualKey::U => {},
        VirtualKey::V => {},
        VirtualKey::W => {},
        VirtualKey::X => {},
        VirtualKey::Y => {},
        VirtualKey::Z => {},
        VirtualKey::LWin => {},
        VirtualKey::RWin => {},
        VirtualKey::Apps => {},
        VirtualKey::Sleep => {},
        VirtualKey::NumpadZero => {},
        VirtualKey::NumpadOne => {},
        VirtualKey::NumpadTwo => {},
        VirtualKey::NumpadThree => {},
        VirtualKey::NumpadFour => {},
        VirtualKey::NumpadFive => {},
        VirtualKey::NumpadSix => {},
        VirtualKey::NumpadSeven => {},
        VirtualKey::NumpadEight => {},
        VirtualKey::NumpadNine => {},
        VirtualKey::Multiply => {},
        VirtualKey::Add => {},
        VirtualKey::Separator => {},
        VirtualKey::Subtract => {},
        VirtualKey::Decimal => {},
        VirtualKey::Divide => {},
        VirtualKey::F1 => {},
        VirtualKey::F2 => {},
        VirtualKey::F3 => {},
        VirtualKey::F4 => {},
        VirtualKey::F5 => {},
        VirtualKey::F6 => {},
        VirtualKey::F7 => {},
        VirtualKey::F8 => {},
        VirtualKey::F9 => {},
        VirtualKey::F10 => {},
        VirtualKey::F11 => {},
        VirtualKey::F12 => {},
        VirtualKey::F13 => {},
        VirtualKey::F14 => {},
        VirtualKey::F15 => {},
        VirtualKey::F16 => {},
        VirtualKey::F17 => {},
        VirtualKey::F18 => {},
        VirtualKey::F19 => {},
        VirtualKey::F20 => {},
        VirtualKey::F21 => {},
        VirtualKey::F22 => {},
        VirtualKey::F23 => {},
        VirtualKey::F24 => {},
        VirtualKey::NumLock => {},
        VirtualKey::Scroll => {},
        VirtualKey::LShift => {},
        VirtualKey::RShift => {},
        VirtualKey::LControl => {},
        VirtualKey::RControl => {},
        VirtualKey::LMenu => {},
        VirtualKey::RMenu => {},
        VirtualKey::BrowserBack => {},
        VirtualKey::BrowserForward => {},
        VirtualKey::BrowserRefresh => {},
        VirtualKey::BrowserStop => {},
        VirtualKey::BrowserSearch => {},
        VirtualKey::BrowserFavorites => {},
        VirtualKey::BrowserHome => {},
        VirtualKey::VolumeMute => {},
        VirtualKey::VolumeDown => {},
        VirtualKey::VolumeUp => {},
        VirtualKey::MediaNextTrack => {},
        VirtualKey::MediaPrevTrack => {},
        VirtualKey::MediaStop => {},
        VirtualKey::MediaPlayPause => {},
        VirtualKey::LaunchMail => {},
        VirtualKey::LaunchMediaSelect => {},
        VirtualKey::LaunchApp1 => {},
        VirtualKey::LaunchApp2 => {},
    }
}

/// A code that names a key is that key's code.
pub proof fn lemma_code_of_key(c: u32)
    ensures
        key_of_code(c) matches Some(k) ==> key_code(k) == c,
{
    reveal(key_of_code);
    reveal(key_code);
}

impl VirtualKey {
    /// The platform's code for this key.
    pub fn code(&self) -> (r: u32)
        ensures
            r == key_code(*self),
    {
        reveal(key_code);
        match self {
            VirtualKey::LButton => 0x01,
            VirtualKey::RButton => 0x02,
            VirtualKey::Cancel => 0x03,
            VirtualKey::MButton => 0x04,
            VirtualKey::XButton1 => 0x05,
            VirtualKey::XButton2 => 0x06,
            VirtualKey::Back => 0x08,
            VirtualKey::Tab => 0x09,
            VirtualKey::Clear => 0x0C,
            VirtualKey::Return => 0x0D,
            VirtualKey::Shift => 0x10,
            VirtualKey::Control => 0x11,
            VirtualKey::Menu => 0x12,
            VirtualKey::Pause => 0x13,
            VirtualKey::Capital => 0x14,
            VirtualKey::Escape => 0x1B,
            VirtualKey::Convert => 0x1C,
            VirtualKey::NonConvert => 0x1D,
            VirtualKey::Accept => 0x1E,
            VirtualKey::ModeChange => 0x1F,
            VirtualKey::Space => 0x20,
            VirtualKey::Prior => 0x21,
            VirtualKey::Next => 0x22,
            VirtualKey::End => 0x23,
            VirtualKey::Home => 0x24,
            VirtualKey::Left => 0x25,
            VirtualKey::Up => 0x26,
            VirtualKey::Right => 0x27,
            VirtualKey::Down => 0x28,
            VirtualKey::Select => 0x29,
            VirtualKey::Print => 0x2A,
            VirtualKey::Execute => 0x2B,
            VirtualKey::Snapshot => 0x2C,
            VirtualKey::Insert => 0x2D,
            VirtualKey::Delete => 0x2E,
            VirtualKey::Help => 0x2F,
            VirtualKey::Zero => 0x30,
            VirtualKey::One => 0x31,
            VirtualKey::Two => 0x32,
            VirtualKey::Three => 0x33,
            VirtualKey::Four => 0x34,
            VirtualKey::Five => 0x35,
            VirtualKey::Six => 0x36,
            VirtualKey::Seven => 0x37,
            VirtualKey::Eight => 0x38,
            VirtualKey::Nine => 0x39,
            VirtualKey::A => 0x41,
            VirtualKey::B => 0x42,
            VirtualKey::C => 0x43,
            VirtualKey::D => 0x44,
            VirtualKey::E => 0x45,
            VirtualKey::F => 0x46,
            VirtualKey::G => 0x47,
            VirtualKey::H => 0x48,
            VirtualKey::I => 0x49,
            VirtualKey::J => 0x4A,
            VirtualKey::K => 0x4B,
            VirtualKey::L => 0x4C,
            VirtualKey::M => 0x4D,
            VirtualKey::N => 0x4E,
            VirtualKey::O => 0x4F,
            VirtualKey::P => 0x50,
            VirtualKey::Q => 0x51,
            VirtualKey::R => 0x52,
            VirtualKey::S => 0x53,
            VirtualKey::T => 0x54,
            VirtualKey::U => 0x55,
            VirtualKey::V => 0x56,
            VirtualKey::W => 0x57,
            VirtualKey::X => 0x58,
            VirtualKey::Y => 0x59,
            VirtualKey::Z => 0x5A,
            VirtualKey::LWin => 0x5B,
            VirtualKey::RWin => 0x5C,
            VirtualKey::Apps => 0x5D,
            VirtualKey::Sleep => 0x5F,
            VirtualKey::NumpadZero => 0x60,
            VirtualKey::NumpadOne => 0x61,
            VirtualKey::NumpadTwo => 0x62,
            VirtualKey::NumpadThree => 0x63,
            VirtualKey::NumpadFour => 0x64,
            VirtualKey::NumpadFive => 0x65,
            VirtualKey::NumpadSix => 0x66,
            VirtualKey::NumpadSeven => 0x67,
            VirtualKey::NumpadEight => 0x68,
            VirtualKey::NumpadNine => 0x69,
            VirtualKey::Multiply => 0x6A,
            VirtualKey::Add => 0x6B,
            VirtualKey::Separator => 0x6C,
            VirtualKey::Subtract => 0x6D,
            VirtualKey::Decimal => 0x6E,
            VirtualKey::Divide => 0x6F,
            VirtualKey::F1 => 0x70,
            VirtualKey::F2 => 0x71,
            VirtualKey::F3 => 0x72,
            VirtualKey::F4 => 0x73,
            VirtualKey::F5 => 0x74,
            VirtualKey::F6 => 0x75,
            VirtualKey::F7 => 0x76,
            VirtualKey::F8 => 0x77,
            VirtualKey::F9 => 0x78,
            VirtualKey::F10 => 0x79,
            VirtualKey::F11 => 0x7A,
            VirtualKey::F12 => 0x7B,
            VirtualKey::F13 => 0x7C,
            VirtualKey::F14 => 0x7D,
            VirtualKey::F15 => 0x7E,
            VirtualKey::F16 => 0x7F,
            VirtualKey::F17 => 0x80,
            VirtualKey::F18 => 0x81,
            VirtualKey::F19 => 0x82,
            VirtualKey::F20 => 0x83,
            VirtualKey::F21 => 0x84,
            VirtualKey::F22 => 0x85,
            VirtualKey::F23 => 0x86,
            VirtualKey::F24 => 0x87,
            VirtualKey::NumLock => 0x90,
            VirtualKey::Scroll => 0x91,
            VirtualKey::LShift => 0xA0,
            VirtualKey::RShift => 0xA1,
            VirtualKey::LControl => 0xA2,
            VirtualKey::RControl => 0xA3,
            VirtualKey::LMenu => 0xA4,
            VirtualKey::RMenu => 0xA5,
            VirtualKey::BrowserBack => 0xA6,
            VirtualKey::BrowserForward => 0xA7,
            VirtualKey::BrowserRefresh => 0xA8,
            VirtualKey::BrowserStop => 0xA9,
            VirtualKey::BrowserSearch => 0xAA,
            VirtualKey::BrowserFavorites => 0xAB,
            VirtualKey::BrowserHome => 0xAC,
            VirtualKey::VolumeMute => 0xAD,
            VirtualKey::VolumeDown => 0xAE,
            VirtualKey::VolumeUp => 0xAF,
            VirtualKey::MediaNextTrack => 0xB0,
            VirtualKey::MediaPrevTrack => 0xB1,
            VirtualKey::MediaStop => 0xB2,
            VirtualKey::MediaPlayPause => 0xB3,
            VirtualKey::LaunchMail => 0xB4,
            VirtualKey::LaunchMediaSelect => 0xB5,
            VirtualKey::LaunchApp1 => 0xB6,
            VirtualKey::LaunchApp2 => 0xB7,
        }
    }

    /// The key with the given platform code; `None` for a code that names no
    /// key.
    pub fn from_code(c: u32) -> (r: Option<VirtualKey>)
        ensures
            r == key_of_code(c),
    {
        reveal(key_of_code);
        match c {
            0x01 => Some(VirtualKey::LButton),
            0x02 => Some(VirtualKey::RButton),
            0x03 => Some(VirtualKey::Cancel),
            0x04 => Some(VirtualKey::MButton),
            0x05 => Some(VirtualKey::XButton1),
            0x06 => Some(VirtualKey::XButton2),
            0x08 => Some(VirtualKey::Back),
            0x09 => Some(VirtualKey::Tab),
            0x0C => Some(VirtualKey::Clear),
            0x0D => Some(VirtualKey::Return),
            0x10 => Some(VirtualKey::Shift),
            0x11 => Some(VirtualKey::Control),
            0x12 => Some(VirtualKey::Menu),
            0x13 => Some(VirtualKey::Pause),
            0x14 => Some(VirtualKey::Capital),
            0x1B => Some(VirtualKey::Escape),
            0x1C => Some(VirtualKey::Convert),
            0x1D => Some(VirtualKey::NonConvert),
            0x1E => Some(VirtualKey::Accept),
            0x1F => Some(VirtualKey::ModeChange),
            0x20 => Some(VirtualKey::Space),
            0x21 => Some(VirtualKey::Prior),
            0x22 => Some(VirtualKey::Next),
            0x23 => Some(VirtualKey::End),
            0x24 => Some(VirtualKey::Home),
            0x25 => Some(VirtualKey::Left),
            0x26 => Some(VirtualKey::Up),
            0x27 => Some(VirtualKey::Right),
            0x28 => Some(VirtualKey::Down),
            0x29 => Some(VirtualKey::Select),
            0x2A => Some(VirtualKey::Print),
            0x2B => Some(VirtualKey::Execute),
            0x2C => Some(VirtualKey::Snapshot),
            0x2D => Some(VirtualKey::Insert),
            0x2E => Some(VirtualKey::Delete),
            0x2F => Some(VirtualKey::Help),
            0x30 => Some(VirtualKey::Zero),
            0x31 => Some(VirtualKey::One),
            0x32 => Some(VirtualKey::Two),
            0x33 => Some(VirtualKey::Three),
            0x34 => Some(VirtualKey::Four),
            0x35 => Some(VirtualKey::Five),
            0x36 => Some(VirtualKey::Six),
            0x37 => Some(VirtualKey::Seven),
            0x38 => Some(VirtualKey::Eight),
            0x39 => Some(VirtualKey::Nine),
            0x41 => Some(VirtualKey::A),
            0x42 => Some(VirtualKey::B),
            0x43 => Some(VirtualKey::C),
            0x44 => Some(VirtualKey::D),
            0x45 => Some(VirtualKey::E),
            0x46 => Some(VirtualKey::F),
            0x47 => Some(VirtualKey::G),
            0x48 => Some(VirtualKey::H),
            0x49 => Some(VirtualKey::I),
            0x4A => Some(VirtualKey::J),
            0x4B => Some(VirtualKey::K),
            0x4C => Some(VirtualKey::L),
            0x4D => Some(VirtualKey::M),
            0x4E => Some(VirtualKey::N),
            0x4F => Some(VirtualKey::O),
            0x50 => Some(VirtualKey::P),
            0x51 => Some(VirtualKey::Q),
            0x52 => Some(VirtualKey::R),
            0x53 => Some(VirtualKey::S),
            0x54 => Some(VirtualKey::T),
            0x55 => Some(VirtualKey::U),
            0x56 => Some(VirtualKey::V),
            0x57 => Some(VirtualKey::W),
            0x58 => Some(VirtualKey::X),
            0x59 => Some(VirtualKey::Y),
            0x5A => Some(VirtualKey::Z),
            0x5B => Some(VirtualKey::LWin),
            0x5C => Some(VirtualKey::RWin),
            0x5D => Some(VirtualKey::Apps),
            0x5F => Some(VirtualKey::Sleep),
            0x60 => Some(VirtualKey::NumpadZero),
            0x61 => Some(VirtualKey::NumpadOne),
            0x62 => Some(VirtualKey::NumpadTwo),
            0x63 => Some(VirtualKey::NumpadThree),
            0x64 => Some(VirtualKey::NumpadFour),
            0x65 => Some(VirtualKey::NumpadFive),
            0x66 => Some(VirtualKey::NumpadSix),
            0x67 => Some(VirtualKey::NumpadSeven),
            0x68 => Some(VirtualKey::NumpadEight),
            0x69 => Some(VirtualKey::NumpadNine),
            0x6A => Some(VirtualKey::Multiply),
            0x6B => Some(VirtualKey::Add),
            0x6C => Some(VirtualKey::Separator),
            0x6D => Some(VirtualKey::Subtract),
            0x6E => Some(VirtualKey::Decimal),
            0x6F => Some(VirtualKey::Divide),
            0x70 => Some(VirtualKey::F1),
            0x71 => Some(VirtualKey::F2),
            0x72 => Some(VirtualKey::F3),
            0x73 => Some(VirtualKey::F4),
            0x74 => Some(VirtualKey::F5),
            0x75 => Some(VirtualKey::F6),
            0x76 => Some(VirtualKey::F7),
            0x77 => Some(VirtualKey::F8),
            0x78 => Some(VirtualKey::F9),
            0x79 => Some(VirtualKey::F10),
            0x7A => Some(VirtualKey::F11),
            0x7B => Some(VirtualKey::F12),
            0x7C => Some(VirtualKey::F13),
            0x7D => Some(VirtualKey::F14),
            0x7E => Some(VirtualKey::F15),
            0x7F => Some(VirtualKey::F16),
            0x80 => Some(VirtualKey::F17),
            0x81 => Some(VirtualKey::F18),
            0x82 => Some(VirtualKey::F19),
            0x83 => Some(VirtualKey::F20),
            0x84 => Some(VirtualKey::F21),
            0x85 => Some(VirtualKey::F22),
            0x86 => Some(VirtualKey::F23),
            0x87 => Some(VirtualKey::F24),
            0x90 => Some(VirtualKey::NumLock),
            0x91 => Some(VirtualKey::Scroll),
            0xA0 => Some(VirtualKey::LShift),
            0xA1 => Some(VirtualKey::RShift),
            0xA2 => Some(VirtualKey::LControl),
            0xA3 => Some(VirtualKey::RControl),
            0xA4 => Some(VirtualKey::LMenu),
            0xA5 => Some(VirtualKey::RMenu),
            0xA6 => Some(VirtualKey::BrowserBack),
            0xA7 => Some(VirtualKey::BrowserForward),
            0xA8 => Some(VirtualKey::BrowserRefresh),
            0xA9 => Some(VirtualKey::BrowserStop),
            0xAA => Some(VirtualKey::BrowserSearch),
            0xAB => Some(VirtualKey::BrowserFavorites),
            0xAC => Some(VirtualKey::BrowserHome),
            0xAD => Some(VirtualKey::VolumeMute),
            0xAE => Some(VirtualKey::VolumeDown),
            0xAF => Some(VirtualKey::VolumeUp),
            0xB0 => Some(VirtualKey::MediaNextTrack),
            0xB1 => Some(VirtualKey::MediaPrevTrack),
            0xB2 => Some(VirtualKey::MediaStop),
            0xB3 => Some(VirtualKey::MediaPlayPause),
            0xB4 => Some(VirtualKey::LaunchMail),
            0xB5 => Some(VirtualKey::LaunchMediaSelect),
            0xB6 => Some(VirtualKey::LaunchApp1),
            0xB7 => Some(VirtualKey::LaunchApp2),
            _ => None,
        }
    }

    /// The key's name in configuration.
    pub fn name(&self) -> (r: &'static str)
        ensures
            r@ == key_name(*self),
    {
        reveal(key_name);
        match self {
            VirtualKey::LButton => "LButton",
            VirtualKey::RButton => "RButton",
            VirtualKey::Cancel => "Cancel",
            VirtualKey::MButton => "MButton",
            VirtualKey::XButton1 => "XButton1",
            VirtualKey::XButton2 => "XButton2",
            VirtualKey::Back => "Back",
            VirtualKey::Tab => "Tab",
            VirtualKey::Clear => "Clear",
            VirtualKey::Return => "Return",
            VirtualKey::Shift => "Shift",
            VirtualKey::Control => "Control",
            VirtualKey::Menu => "Menu",
            VirtualKey::Pause => "Pause",
            VirtualKey::Capital => "Capital",
            VirtualKey::Escape => "Escape",
            VirtualKey::Convert => "Convert",
            VirtualKey::NonConvert => "NonConvert",
            VirtualKey::Accept => "Accept",
            VirtualKey::ModeChange => "ModeChange",
            VirtualKey::Space => "Space",
            VirtualKey::Prior => "Prior",
            VirtualKey::Next => "Next",
            VirtualKey::End => "End",
            VirtualKey::Home => "Home",
            VirtualKey::Left => "Left",
            VirtualKey::Up => "Up",
            VirtualKey::Right => "Right",
            VirtualKey::Down => "Down",
            VirtualKey::Select => "Select",
            VirtualKey::Print => "Print",
            VirtualKey::Execute => "Execute",
            VirtualKey::Snapshot => "Snapshot",
            VirtualKey::Insert => "Insert",
            VirtualKey::Delete => "Delete",
            VirtualKey::Help => "Help",
            VirtualKey::Zero => "0",
            VirtualKey::One => "1",
            VirtualKey::Two => "2",
            VirtualKey::Three => "3",
            VirtualKey::Four => "4",
            VirtualKey::Five => "5",
            VirtualKey::Six => "6",
            VirtualKey::Seven => "7",
            VirtualKey::Eight => "8",
            VirtualKey::Nine => "9",
            VirtualKey::A => "A",
            VirtualKey::B => "B",
            VirtualKey::C => "C",
            VirtualKey::D => "D",
            VirtualKey::E => "E",
            VirtualKey::F => "F",
            VirtualKey::G => "G",
            VirtualKey::H => "H",
            VirtualKey::I => "I",
            VirtualKey::J => "J",
            VirtualKey::K => "K",
            VirtualKey::L => "L",
            VirtualKey::M => "M",
            VirtualKey::N => "N",
            VirtualKey::O => "O",
            VirtualKey::P => "P",
            VirtualKey::Q => "Q",
            VirtualKey::R => "R",
            VirtualKey::S => "S",
            VirtualKey::T => "T",
            VirtualKey::U => "U",
            VirtualKey::V => "V",
            VirtualKey::W => "W",
            VirtualKey::X => "X",
            VirtualKey::Y => "Y",
            VirtualKey::Z => "Z",
            VirtualKey::LWin => "LWin",
            VirtualKey::RWin => "RWin",
            VirtualKey::Apps => "Apps",
            VirtualKey::Sleep => "Sleep",
            VirtualKey::NumpadZero => "NumPad0",
            VirtualKey::NumpadOne => "NumPad1",
            VirtualKey::NumpadTwo => "NumPad2",
            VirtualKey::NumpadThree => "NumPad3",
            VirtualKey::NumpadFour => "NumPad4",
            VirtualKey::NumpadFive => "NumPad5",
            VirtualKey::NumpadSix => "NumPad6",
            VirtualKey::NumpadSeven => "NumPad7",
            VirtualKey::NumpadEight => "NumPad8",
            VirtualKey::NumpadNine => "NumPad9",
            VirtualKey::Multiply => "*",
            VirtualKey::Add => "+",
            VirtualKey::Separator => "Separator",
            VirtualKey::Subtract => "-",
            VirtualKey::Decimal => ".",
            VirtualKey::Divide => "/",
            VirtualKey::F1 => "F1",
            VirtualKey::F2 => "F2",
            VirtualKey::F3 => "F3",
            VirtualKey::F4 => "F4",
            VirtualKey::F5 => "F5",
            VirtualKey::F6 => "F6",
            VirtualKey::F7 => "F7",
            VirtualKey::F8 => "F8",
            VirtualKey::F9 => "F9",
            VirtualKey::F10 => "F10",
            VirtualKey::F11 => "F11",
            VirtualKey::F12 => "F12",
            VirtualKey::F13 => "F13",
            VirtualKey::F14 => "F14",
            VirtualKey::F15 => "F15",
            VirtualKey::F16 => "F16",
            VirtualKey::F17 => "F17",
            VirtualKey::F18 => "F18",
            VirtualKey::F19 => "F19",
            VirtualKey::F20 => "F20",
            VirtualKey::F21 => "F21",
            VirtualKey::F22 => "F22",
            VirtualKey::F23 => "F23",
            VirtualKey::F24 => "F24",
            VirtualKey::NumLock => "NumLock",
            VirtualKey::Scroll => "Scroll",
            VirtualKey::LShift => "LShift",
            VirtualKey::RShift => "RShift",
            VirtualKey::LControl => "LControl",
            VirtualKey::RControl => "RControl",
            VirtualKey::LMenu => "LMenu",
            VirtualKey::RMenu => "RMenu",
            VirtualKey::BrowserBack => "BrowserBack",
            VirtualKey::BrowserForward => "BrowserForward",
            VirtualKey::BrowserRefresh => "BrowserRefresh",
            VirtualKey::BrowserStop => "BrowserStop",
            VirtualKey::BrowserSearch => "BrowserSearch",
            VirtualKey::BrowserFavorites => "BrowserFavorites",
            VirtualKey::BrowserHome => "BrowserHome",
            VirtualKey::VolumeMute => "VolumeMute",
            VirtualKey::VolumeDown => "VolumeDown",
            VirtualKey::VolumeUp => "VolumeUp",
            VirtualKey::MediaNextTrack => "MediaNextTrack",
            VirtualKey::MediaPrevTrack => "MediaPrevTrack",
            VirtualKey::MediaStop => "MediaStop",
            VirtualKey::MediaPlayPause => "MediaPlayPause",
            VirtualKey::LaunchMail => "LaunchMail",
            VirtualKey::LaunchMediaSelect => "LaunchMediaSelect",
            VirtualKey::LaunchApp1 => "LaunchApp1",
            VirtualKey::LaunchApp2 => "LaunchApp2",
        }
    }

    /// The key whose configuration name is `name`; `None` when no key has it.
    pub fn from_name(name: &str) -> (r: Option<VirtualKey>)
        ensures
            r matches Some(k) ==> key_name(k) == name@,
            r matches Some(k) ==> forall|j: VirtualKey| key_code(j) < key_code(k) ==> key_name(j) != name@,
            r is None <==> forall|k: VirtualKey| key_name(k) != name@,
    {
        let wanted = String::from_str(name);
        let mut c: u32 = 1;
        while c < 0xB8
            invariant
                1 <= c <= 0xB8,
                wanted@ == name@,
                forall|d: u32| 1 <= d < c ==> (#[trigger] key_of_code(d) matches Some(k) ==> key_name(k) != name@),
            decreases 0xB8 - c,
        {
            if let Some(k) = VirtualKey::from_code(c) {
                if String::from_str(k.name()) == wanted {
                    proof {
                        lemma_code_of_key(c);
                        assert forall|j: VirtualKey| key_code(j) < key_code(k) implies key_name(j) != name@ by {
                            lemma_code_round_trip(j);
                            assert(key_of_code(key_code(j)) matches Some(i) ==> key_name(i) != name@);
                        }
                    }
                    return Some(k);
                }
            }
            c = c + 1;
        }
        proof {
            assert forall|k: VirtualKey| key_name(k) != name@ by {
                lemma_code_round_trip(k);
                let d = key_code(k);
                assert(key_of_code(d) matches Some(j) ==> key_name(j) != name@);
            }
        }
        None
    }
}

/// The parameters of one call into the platform's hotkey table: the
/// registration's id and the key's code. Every registration asks for the same
/// modifiers and no auto-repeat; those are the caller's to add.
#[derive(Clone, Copy, Debug, PartialEq, Eq, Structural)]
pub struct Registration {
    pub id: i32,
    pub virtual_key: u32,
}

/// The registration for a key: its id is the key's code, so that one key has
/// one id.
pub open spec fn registration_of(k: VirtualKey) -> Registration {
    Registration { id: key_code(k) as i32, virtual_key: key_code(k) }
}

/// Why a hotkey could not be registered.
#[derive(Clone, Copy, Debug, PartialEq, Eq, Structural)]
pub enum HotkeyError {
    /// The key is already registered, by this process or by another.
    Conflict(VirtualKey),
}

/// A hotkey: a command bound to a key, and whether this handle holds the
/// key's registration. A handle is released at most once: only a live handle
/// yields an unregister call.
#[derive(Debug, PartialEq, Eq, Structural)]
pub struct HotKey {
    message: Message,
    key: VirtualKey,
    live: bool,
}

/// The keys that this process holds registered, one live handle each.
#[derive(Debug)]
pub struct Registry {
    held: Vec<VirtualKey>,
}

impl View for Registry {
    type V = Set<VirtualKey>;

    closed spec fn view(&self) -> Set<VirtualKey> {
        Set::new(|k: VirtualKey| self.held@.contains(k))
    }
}

impl Registry {
    /// A registry that holds nothing.
    pub fn new() -> (r: Registry)
        ensures
            r@ == Set::<VirtualKey>::empty(),
    {
        let r = Registry { held: Vec::new() };
        assert(r@ =~= Set::<VirtualKey>::empty());
        r
    }

    /// Whether this process holds `key` registered.
    pub fn holds(&self, key: VirtualKey) -> (r: bool)
        ensures
            r == self@.contains(key),
    {
        let mut i: usize = 0;
        while i < self.held.len()
            invariant
                i <= self.held@.len(),
                forall|j: int| 0 <= j < i ==> self.held@[j] != key,
            decreases self.held@.len() - i,
        {
            if self.held[i] == key {
                return true;
            }
            i = i + 1;
        }
        false
    }

    fn insert(&mut self, key: VirtualKey)
        ensures
            final(self)@ == old(self)@.insert(key),
    {
        let ghost before = self.held@;
        self.held.push(key);
        assert forall|k: VirtualKey| self.held@.contains(k) <==> before.contains(k) || k == key by {
            if before.contains(k) {
                let m = choose|m: int| 0 <= m < before.len() && before[m] == k;
                assert(self.held@[m] == k);
            }
            if k == key {
                assert(self.held@[before.len() as int] == k);
            }
        }
        assert(before == old(self).held@);
        assert forall|k: VirtualKey| self@.contains(k) <==> old(self)@.insert(key).contains(k) by {
            assert(self@.contains(k) == self.held@.contains(k));
            assert(old(self)@.contains(k) == before.contains(k));
        }
        assert(self@ =~= old(self)@.insert(key));
    }

    fn remove(&mut self, key: VirtualKey)
        ensures
            final(self)@ == old(self)@.remove(key),
    {
        let mut kept: Vec<VirtualKey> = Vec::new();
        let mut i: usize = 0;
        while i < self.held.len()
            invariant
                i <= self.held@.len(),
                self.held@ == old(self).held@,
                forall|k: VirtualKey|
                    #[trigger] kept@.contains(k) <==> (k != key && exists|m: int|
                        0 <= m < i && self.held@[m] == k),
            decreases self.held@.len() - i,
        {
            let k = self.held[i];
            let ghost before = kept@;
            if k != key {
                kept.push(k);
            }
            assert forall|j: VirtualKey|
                #[trigger] kept@.contains(j) <==> (j != key && exists|m: int|
                    0 <= m < i + 1 && self.held@[m] == j) by {
                if kept@.contains(j) {
                    let n = choose|n: int| 0 <= n < kept@.len() && kept@[n] == j;
                    if n < before.len() {
                        assert(before[n] == j);
                        assert(before.contains(j));
                    } else {
                        assert(self.held@[i as int] == j);
                    }
                }
                if j != key && exists|m: int| 0 <= m < i + 1 && self.held@[m] == j {
                    let m = choose|m: int| 0 <= m < i + 1 && self.held@[m] == j;
                    if m < i {
                        assert(before.contains(j));
                        let n = choose|n: int| 0 <= n < before.len() && before[n] == j;
                        assert(kept@[n] == j);
                    } else {
                        assert(kept@[kept@.len() - 1] == j);
                    }
                }
            }
            i = i + 1;
        }
        assert forall|k: VirtualKey| kept@.contains(k) <==> (k != key && self.held@.contains(k)) by {
            if k != key && self.held@.contains(k) {
                let m = choose|m: int| 0 <= m < self.held@.len() && self.held@[m] == k;
                assert(exists|m: int| 0 <= m < i && self.held@[m] == k);
            }
        }
        self.held = kept;
        assert(final(self)@ =~= old(self)@.remove(key));
    }
}

/// What registering `h` yields while `held` is registered.
pub open spec fn register_outcome(held: Set<VirtualKey>, h: HotKey) -> Result<Registration, HotkeyError> {
    if h.spec_live() || held.contains(h.spec_key()) {
        Err(HotkeyError::Conflict(h.spec_key()))
    } else {
        Ok(registration_of(h.spec_key()))
    }
}

/// What releasing `h` yields: the unregister call, for a live handle only.
pub open spec fn release_outcome(h: HotKey) -> Option<Registration> {
    if h.spec_live() {
        Some(registration_of(h.spec_key()))
    } else {
        None
    }
}

/// The number of unregister calls that `n` releases of `h` yield.
pub open spec fn release_calls(h: HotKey, n: nat) -> nat
    decreases n,
{
    if n == 0 {
        0
    } else {
        (if release_outcome(h) is Some { 1nat } else { 0nat }) + release_calls(h.released(), (n - 1) as nat)
    }
}

impl HotKey {
    /// The command this hotkey triggers.
    pub closed spec fn spec_message(&self) -> Message {
        self.message
    }

    /// The key this hotkey is on.
    pub closed spec fn spec_key(&self) -> VirtualKey {
        self.key
    }

    /// Whether this handle holds the key's registration.
    pub closed spec fn spec_live(&self) -> bool {
        self.live
    }

    /// This handle after registration.
    pub closed spec fn registered(&self) -> HotKey {
        HotKey { live: true, ..*self }
    }

    /// This handle after release.
    pub closed spec fn released(&self) -> HotKey {
        HotKey { live: false, ..*self }
    }

    /// A hotkey for `message` on `key`, not yet registered.
    pub fn new(message: Message, key: VirtualKey) -> (r: HotKey)
        ensures
            r.spec_message() == message,
            r.spec_key() == key,
            !r.spec_live(),
    {
        HotKey { message, key, live: false }
    }

    /// The command this hotkey triggers.
    pub fn message(&self) -> (r: Message)
        ensures
            r == self.spec_message(),
    {
        self.message
    }

    /// The key this hotkey is on.
    pub fn key(&self) -> (r: VirtualKey)
        ensures
            r == self.spec_key(),
    {
        self.key
    }

    /// Whether this handle holds the key's registration.
    pub fn is_live(&self) -> (r: bool)
        ensures
            r == self.spec_live(),
    {
        self.live
    }

    /// Claims the key in `registry` and returns the registration to make.
    /// Fails with a conflict, changing nothing, when this handle is already
    /// live or the key is already held.
    pub fn register(&mut self, registry: &mut Registry) -> (r: Result<Registration, HotkeyError>)
        ensures
            r == register_outcome(old(registry)@, *old(self)),
            r is Ok ==> *final(self) == old(self).registered() && final(registry)@ == old(registry)@.insert(
                old(self).spec_key(),
            ),
            r is Err ==> *final(self) == *old(self) && final(registry)@ == old(registry)@,
    {
        if self.live || registry.holds(self.key) {
            return Err(HotkeyError::Conflict(self.key));
        }
        registry.insert(self.key);
        self.live = true;
        Ok(Registration { id: self.key.code() as i32, virtual_key: self.key.code() })
    }

    /// Releases the key in `registry` and returns the unregister call to
    /// make: once, for a live handle; `None` on every later call.
    pub fn unregister(&mut self, registry: &mut Registry) -> (r: Option<Registration>)
        ensures
            r == release_outcome(*old(self)),
            *final(self) == old(self).released(),
            final(registry)@ == if old(self).spec_live() {
                old(registry)@.remove(old(self).spec_key())
            } else {
                old(registry)@
            },
    {
        if !self.live {
            return None;
        }
        registry.remove(self.key);
        self.live = false;
        Some(Registration { id: self.key.code() as i32, virtual_key: self.key.code() })
    }

    /// Gives the key back in `registry` after the platform refused the
    /// registration that `register` returned; there is nothing to unregister.
    pub fn abandon(&mut self, registry: &mut Registry)
        ensures
            *final(self) == old(self).released(),
            final(registry)@ == if old(self).spec_live() {
                old(registry)@.remove(old(self).spec_key())
            } else {
                old(registry)@
            },
    {
        if self.live {
            registry.remove(self.key);
            self.live = false;
        }
    }
}

/// Registering a second handle on a key whose first registration succeeded,
/// without releasing the first, fails with a conflict on that key; the first
/// handle stays live and its key stays held.
pub proof fn lemma_second_register_conflicts(held: Set<VirtualKey>, first: HotKey, second: HotKey)
    requires
        first.spec_key() == second.spec_key(),
        register_outcome(held, first) is Ok,
    ensures
        register_outcome(held.insert(first.spec_key()), second) == Err::<Registration, HotkeyError>(
            HotkeyError::Conflict(first.spec_key()),
        ),
        first.registered().spec_live(),
        held.insert(first.spec_key()).contains(first.spec_key()),
{
}

/// However many times a live handle is released (explicitly, at scope exit,
/// or both), exactly one unregister call results; a handle that is not live
/// yields none.
pub proof fn lemma_release_once(h: HotKey, n: nat)
    requires
        n >= 1,
    ensures
        release_calls(h, n) == if h.spec_live() { 1nat } else { 0nat },
    decreases n,
{
    if n > 1 {
        lemma_release_once(h.released(), (n - 1) as nat);
    } else {
        assert(release_calls(h.released(), 0) == 0);
    }
}

} // verus!
