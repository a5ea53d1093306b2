//! The keyboard vocabulary: one flat tagged union of every key the driver
//! understands, with a per-platform capability set.
//!
//! Keys are pure data.  Which variants are meaningful depends on the target
//! platform, so availability is a value-level question ([`key_available`]),
//! checked before a token is built or sent, never a compile-time one.
//! `Unicode` enters an arbitrary character and `Other` an unlisted
//! platform-native code.
//!
//! On the wire a key is its canonical name; decoding also accepts the
//! documented alias `"ctrl"` for `Control`.  The variant named `None` in the
//! driver's vocabulary is spelled [`Key::NoneKey`] here, under its wire name
//! `"None"`, and the variant named `Option` is [`Key::OptionKey`], under its
//! wire name `"Option"`.

use vstd::prelude::*;

use crate::strutil::chars_eq_lit;

verus! {

/// One key on the keyboard, or one of the two escape hatches.
#[derive(Clone, Copy, Debug, PartialEq, Eq, Hash, Structural)]
pub enum Key {
    Num0,
    Num1,
    Num2,
    Num3,
    Num4,
    Num5,
    Num6,
    Num7,
    Num8,
    Num9,
    A,
    B,
    C,
    D,
    E,
    F,
    G,
    H,
    I,
    J,
    K,
    L,
    M,
    N,
    O,
    P,
    Q,
    R,
    S,
    T,
    U,
    V,
    W,
    X,
    Y,
    Z,
    AbntC1,
    AbntC2,
    Accept,
    Add,
    Alt,
    Apps,
    Attn,
    Backspace,
    Break,
    Begin,
    BrightnessDown,
    BrightnessUp,
    BrowserBack,
    BrowserFavorites,
    BrowserForward,
    BrowserHome,
    BrowserRefresh,
    BrowserSearch,
    BrowserStop,
    Cancel,
    CapsLock,
    Clear,
    ContrastUp,
    ContrastDown,
    Control,
    Convert,
    Crsel,
    DBEAlphanumeric,
    DBECodeinput,
    DBEDetermineString,
    DBEEnterDLGConversionMode,
    DBEEnterIMEConfigMode,
    DBEEnterWordRegisterMode,
    DBEFlushString,
    DBEHiragana,
    DBEKatakana,
    DBENoCodepoint,
    DBENoRoman,
    DBERoman,
    DBESBCSChar,
    DBESChar,
    Decimal,
    Delete,
    Divide,
    DownArrow,
    Eject,
    End,
    Ereof,
    Escape,
    Execute,
    Exsel,
    F1,
    F2,
    F3,
    F4,
    F5,
    F6,
    F7,
    F8,
    F9,
    F10,
    F11,
    F12,
    F13,
    F14,
    F15,
    F16,
    F17,
    F18,
    F19,
    F20,
    F21,
    F22,
    F23,
    F24,
    F25,
    F26,
    F27,
    F28,
    F29,
    F30,
    F31,
    F32,
    F33,
    F34,
    F35,
    Function,
    Final,
    Find,
    GamepadA,
    GamepadB,
    GamepadDPadDown,
    GamepadDPadLeft,
    GamepadDPadRight,
    GamepadDPadUp,
    GamepadLeftShoulder,
    GamepadLeftThumbstickButton,
    GamepadLeftThumbstickDown,
    GamepadLeftThumbstickLeft,
    GamepadLeftThumbstickRight,
    GamepadLeftThumbstickUp,
    GamepadLeftTrigger,
    GamepadMenu,
    GamepadRightShoulder,
    GamepadRightThumbstickButton,
    GamepadRightThumbstickDown,
    GamepadRightThumbstickLeft,
    GamepadRightThumbstickRight,
    GamepadRightThumbstickUp,
    GamepadRightTrigger,
    GamepadView,
    GamepadX,
    GamepadY,
    Hangeul,
    Hangul,
    Hanja,
    Help,
    Home,
    Ico00,
    IcoClear,
    IcoHelp,
    IlluminationDown,
    IlluminationUp,
    IlluminationToggle,
    IMEOff,
    IMEOn,
    Insert,
    Junja,
    Kana,
    Kanji,
    LaunchApp1,
    LaunchApp2,
    LaunchMail,
    LaunchMediaSelect,
    Launchpad,
    LaunchPanel,
    LButton,
    LControl,
    LeftArrow,
    Linefeed,
    LMenu,
    LShift,
    LWin,
    MButton,
    MediaFast,
    MediaNextTrack,
    MediaPlayPause,
    MediaPrevTrack,
    MediaRewind,
    MediaStop,
    Meta,
    MissionControl,
    ModeChange,
    Multiply,
    NavigationAccept,
    NavigationCancel,
    NavigationDown,
    NavigationLeft,
    NavigationMenu,
    NavigationRight,
    NavigationUp,
    NavigationView,
    NoName,
    NonConvert,
    NoneKey,
    Numlock,
    Numpad0,
    Numpad1,
    Numpad2,
    Numpad3,
    Numpad4,
    Numpad5,
    Numpad6,
    Numpad7,
    Numpad8,
    Numpad9,
    OEM1,
    OEM102,
    OEM2,
    OEM3,
    OEM4,
    OEM5,
    OEM6,
    OEM7,
    OEM8,
    OEMAttn,
    OEMAuto,
    OEMAx,
    OEMBacktab,
    OEMClear,
    OEMComma,
    OEMCopy,
    OEMCusel,
    OEMEnlw,
    OEMFinish,
    OEMFJJisho,
    OEMFJLoya,
    OEMFJMasshou,
    OEMFJRoya,
    OEMFJTouroku,
    OEMJump,
    OEMMinus,
    OEMNECEqual,
    OEMPA1,
    OEMPA2,
    OEMPA3,
    OEMPeriod,
    OEMPlus,
    OEMReset,
    OEMWsctrl,
    OptionKey,
    PA1,
    Packet,
    PageDown,
    PageUp,
    Pause,
    Play,
    Power,
    Print,
    PrintScr,
    Processkey,
    RButton,
    RCommand,
    RControl,
    Redo,
    Return,
    RightArrow,
    RMenu,
    ROption,
    RShift,
    RWin,
    Scroll,
    ScrollLock,
    Select,
    ScriptSwitch,
    Separator,
    Shift,
    ShiftLock,
    Sleep,
    Snapshot,
    Space,
    Subtract,
    SysReq,
    Tab,
    Undo,
    UpArrow,
    VidMirror,
    VolumeDown,
    VolumeMute,
    VolumeUp,
    MicMute,
    XButton1,
    XButton2,
    Zoom,
    Unicode(char),
    Other(u32),
}

/// A target platform, as far as key availability goes.
#[derive(Clone, Copy, Debug, PartialEq, Eq, Structural)]
pub enum Platform {
    Windows,
    MacOs,
    LinuxLike,
}

/// The set of platforms a key is meaningful on.
#[derive(Clone, Copy, Debug, PartialEq, Eq, Structural)]
pub enum KeyPlatforms {
    All,
    WindowsOnly,
    MacOsOnly,
    LinuxLikeOnly,
    WindowsOrLinuxLike,
}

/// The capability class of each key.
pub open spec fn spec_key_platforms(k: Key) -> KeyPlatforms {
    match k {
        Key::Num0 => KeyPlatforms::WindowsOnly,
        Key::Num1 => KeyPlatforms::WindowsOnly,
        Key::Num2 => KeyPlatforms::WindowsOnly,
        Key::Num3 => KeyPlatforms::WindowsOnly,
        Key::Num4 => KeyPlatforms::WindowsOnly,
        Key::Num5 => KeyPlatforms::WindowsOnly,
        Key::Num6 => KeyPlatforms::WindowsOnly,
        Key::Num7 => KeyPlatforms::WindowsOnly,
        Key::Num8 => KeyPlatforms::WindowsOnly,
        Key::Num9 => KeyPlatforms::WindowsOnly,
        Key::A => KeyPlatforms::WindowsOnly,
        Key::B => KeyPlatforms::WindowsOnly,
        Key::C => KeyPlatforms::WindowsOnly,
        Key::D => KeyPlatforms::WindowsOnly,
        Key::E => KeyPlatforms::WindowsOnly,
        Key::F => KeyPlatforms::WindowsOnly,
        Key::G => KeyPlatforms::WindowsOnly,
        Key::H => KeyPlatforms::WindowsOnly,
        Key::I => KeyPlatforms::WindowsOnly,
        Key::J => KeyPlatforms::WindowsOnly,
        Key::K => KeyPlatforms::WindowsOnly,
        Key::L => KeyPlatforms::WindowsOnly,
        Key::M => KeyPlatforms::WindowsOnly,
        Key::N => KeyPlatforms::WindowsOnly,
        Key::O => KeyPlatforms::WindowsOnly,
        Key::P => KeyPlatforms::WindowsOnly,
        Key::Q => KeyPlatforms::WindowsOnly,
        Key::R => KeyPlatforms::WindowsOnly,
        Key::S => KeyPlatforms::WindowsOnly,
        Key::T => KeyPlatforms::WindowsOnly,
        Key::U => KeyPlatforms::WindowsOnly,
        Key::V => KeyPlatforms::WindowsOnly,
        Key::W => KeyPlatforms::WindowsOnly,
        Key::X => KeyPlatforms::WindowsOnly,
        Key::Y => KeyPlatforms::WindowsOnly,
        Key::Z => KeyPlatforms::WindowsOnly,
        Key::AbntC1 => KeyPlatforms::WindowsOnly,
        Key::AbntC2 => KeyPlatforms::WindowsOnly,
        Key::Accept => KeyPlatforms::WindowsOnly,
        Key::Add => KeyPlatforms::WindowsOnly,
        Key::Alt => KeyPlatforms::All,
        Key::Apps => KeyPlatforms::WindowsOnly,
        Key::Attn => KeyPlatforms::WindowsOnly,
        Key::Backspace => KeyPlatforms::All,
        Key::Break => KeyPlatforms::LinuxLikeOnly,
        Key::Begin => KeyPlatforms::LinuxLikeOnly,
        Key::BrightnessDown => KeyPlatforms::MacOsOnly,
        Key::BrightnessUp => KeyPlatforms::MacOsOnly,
        Key::BrowserBack => KeyPlatforms::WindowsOnly,
        Key::BrowserFavorites => KeyPlatforms::WindowsOnly,
        Key::BrowserForward => KeyPlatforms::WindowsOnly,
        Key::BrowserHome => KeyPlatforms::WindowsOnly,
        Key::BrowserRefresh => KeyPlatforms::WindowsOnly,
        Key::BrowserSearch => KeyPlatforms::WindowsOnly,
        Key::BrowserStop => KeyPlatforms::WindowsOnly,
        Key::Cancel => KeyPlatforms::WindowsOrLinuxLike,
        Key::CapsLock => KeyPlatforms::All,
        Key::Clear => KeyPlatforms::WindowsOrLinuxLike,
        Key::ContrastUp => KeyPlatforms::MacOsOnly,
        Key::ContrastDown => KeyPlatforms::MacOsOnly,
        Key::Control => KeyPlatforms::All,
        Key::Convert => KeyPlatforms::WindowsOnly,
        Key::Crsel => KeyPlatforms::WindowsOnly,
        Key::DBEAlphanumeric => KeyPlatforms::WindowsOnly,
        Key::DBECodeinput => KeyPlatforms::WindowsOnly,
        Key::DBEDetermineString => KeyPlatforms::WindowsOnly,
        Key::DBEEnterDLGConversionMode => KeyPlatforms::WindowsOnly,
        Key::DBEEnterIMEConfigMode => KeyPlatforms::WindowsOnly,
        Key::DBEEnterWordRegisterMode => KeyPlatforms::WindowsOnly,
        Key::DBEFlushString => KeyPlatforms::WindowsOnly,
        Key::DBEHiragana => KeyPlatforms::WindowsOnly,
        Key::DBEKatakana => KeyPlatforms::WindowsOnly,
        Key::DBENoCodepoint => KeyPlatforms::WindowsOnly,
        Key::DBENoRoman => KeyPlatforms::WindowsOnly,
        Key::DBERoman => KeyPlatforms::WindowsOnly,
        Key::DBESBCSChar => KeyPlatforms::WindowsOnly,
        Key::DBESChar => KeyPlatforms::WindowsOnly,
        Key::Decimal => KeyPlatforms::WindowsOnly,
        Key::Delete => KeyPlatforms::All,
        Key::Divide => KeyPlatforms::WindowsOnly,
        Key::DownArrow => KeyPlatforms::All,
        Key::Eject => KeyPlatforms::MacOsOnly,
        Key::End => KeyPlatforms::All,
        Key::Ereof => KeyPlatforms::WindowsOnly,
        Key::Escape => KeyPlatforms::All,
        Key::Execute => KeyPlatforms::WindowsOrLinuxLike,
        Key::Exsel => KeyPlatforms::WindowsOnly,
        Key::F1 => KeyPlatforms::All,
        Key::F2 => KeyPlatforms::All,
        Key::F3 => KeyPlatforms::All,
        Key::F4 => KeyPlatforms::All,
        Key::F5 => KeyPlatforms::All,
        Key::F6 => KeyPlatforms::All,
        Key::F7 => KeyPlatforms::All,
        Key::F8 => KeyPlatforms::All,
        Key::F9 => KeyPlatforms::All,
        Key::F10 => KeyPlatforms::All,
        Key::F11 => KeyPlatforms::All,
        Key::F12 => KeyPlatforms::All,
        Key::F13 => KeyPlatforms::All,
        Key::F14 => KeyPlatforms::All,
        Key::F15 => KeyPlatforms::All,
        Key::F16 => KeyPlatforms::All,
        Key::F17 => KeyPlatforms::All,
        Key::F18 => KeyPlatforms::All,
        Key::F19 => KeyPlatforms::All,
        Key::F20 => KeyPlatforms::All,
        Key::F21 => KeyPlatforms::WindowsOrLinuxLike,
        Key::F22 => KeyPlatforms::WindowsOrLinuxLike,
        Key::F23 => KeyPlatforms::WindowsOrLinuxLike,
        Key::F24 => KeyPlatforms::WindowsOrLinuxLike,
        Key::F25 => KeyPlatforms::LinuxLikeOnly,
        Key::F26 => KeyPlatforms::LinuxLikeOnly,
        Key::F27 => KeyPlatforms::LinuxLikeOnly,
        Key::F28 => KeyPlatforms::LinuxLikeOnly,
        Key::F29 => KeyPlatforms::LinuxLikeOnly,
        Key::F30 => KeyPlatforms::LinuxLikeOnly,
        Key::F31 => KeyPlatforms::LinuxLikeOnly,
        Key::F32 => KeyPlatforms::LinuxLikeOnly,
        Key::F33 => KeyPlatforms::LinuxLikeOnly,
        Key::F34 => KeyPlatforms::LinuxLikeOnly,
        Key::F35 => KeyPlatforms::LinuxLikeOnly,
        Key::Function => KeyPlatforms::MacOsOnly,
        Key::Final => KeyPlatforms::WindowsOnly,
        Key::Find => KeyPlatforms::LinuxLikeOnly,
        Key::GamepadA => KeyPlatforms::WindowsOnly,
        Key::GamepadB => KeyPlatforms::WindowsOnly,
        Key::GamepadDPadDown => KeyPlatforms::WindowsOnly,
        Key::GamepadDPadLeft => KeyPlatforms::WindowsOnly,
        Key::GamepadDPadRight => KeyPlatforms::WindowsOnly,
        Key::GamepadDPadUp => KeyPlatforms::WindowsOnly,
        Key::GamepadLeftShoulder => KeyPlatforms::WindowsOnly,
        Key::GamepadLeftThumbstickButton => KeyPlatforms::WindowsOnly,
        Key::GamepadLeftThumbstickDown => KeyPlatforms::WindowsOnly,
        Key::GamepadLeftThumbstickLeft => KeyPlatforms::WindowsOnly,
        Key::GamepadLeftThumbstickRight => KeyPlatforms::WindowsOnly,
        Key::GamepadLeftThumbstickUp => KeyPlatforms::WindowsOnly,
        Key::GamepadLeftTrigger => KeyPlatforms::WindowsOnly,
        Key::GamepadMenu => KeyPlatforms::WindowsOnly,
        Key::GamepadRightShoulder => KeyPlatforms::WindowsOnly,
        Key::GamepadRightThumbstickButton => KeyPlatforms::WindowsOnly,
        Key::GamepadRightThumbstickDown => KeyPlatforms::WindowsOnly,
        Key::GamepadRightThumbstickLeft => KeyPlatforms::WindowsOnly,
        Key::GamepadRightThumbstickRight => KeyPlatforms::WindowsOnly,
        Key::GamepadRightThumbstickUp => KeyPlatforms::WindowsOnly,
        Key::GamepadRightTrigger => KeyPlatforms::WindowsOnly,
        Key::GamepadView => KeyPlatforms::WindowsOnly,
        Key::GamepadX => KeyPlatforms::WindowsOnly,
        Key::GamepadY => KeyPlatforms::WindowsOnly,
        Key::Hangeul => KeyPlatforms::WindowsOnly,
        Key::Hangul => KeyPlatforms::WindowsOrLinuxLike,
        Key::Hanja => KeyPlatforms::WindowsOrLinuxLike,
        Key::Help => KeyPlatforms::All,
        Key::Home => KeyPlatforms::All,
        Key::Ico00 => KeyPlatforms::WindowsOnly,
        Key::IcoClear => KeyPlatforms::WindowsOnly,
        Key::IcoHelp => KeyPlatforms::WindowsOnly,
        Key::IlluminationDown => KeyPlatforms::MacOsOnly,
        Key::IlluminationUp => KeyPlatforms::MacOsOnly,
        Key::IlluminationToggle => KeyPlatforms::MacOsOnly,
        Key::IMEOff => KeyPlatforms::WindowsOnly,
        Key::IMEOn => KeyPlatforms::WindowsOnly,
        Key::Insert => KeyPlatforms::WindowsOrLinuxLike,
        Key::Junja => KeyPlatforms::WindowsOnly,
        Key::Kana => KeyPlatforms::WindowsOnly,
        Key::Kanji => KeyPlatforms::WindowsOrLinuxLike,
        Key::LaunchApp1 => KeyPlatforms::WindowsOnly,
        Key::LaunchApp2 => KeyPlatforms::WindowsOnly,
        Key::LaunchMail => KeyPlatforms::WindowsOnly,
        Key::LaunchMediaSelect => KeyPlatforms::WindowsOnly,
        Key::Launchpad => KeyPlatforms::MacOsOnly,
        Key::LaunchPanel => KeyPlatforms::MacOsOnly,
        Key::LButton => KeyPlatforms::WindowsOnly,
        Key::LControl => KeyPlatforms::All,
        Key::LeftArrow => KeyPlatforms::All,
        Key::Linefeed => KeyPlatforms::LinuxLikeOnly,
        Key::LMenu => KeyPlatforms::WindowsOrLinuxLike,
        Key::LShift => KeyPlatforms::All,
        Key::LWin => KeyPlatforms::WindowsOnly,
        Key::MButton => KeyPlatforms::WindowsOnly,
        Key::MediaFast => KeyPlatforms::MacOsOnly,
        Key::MediaNextTrack => KeyPlatforms::All,
        Key::MediaPlayPause => KeyPlatforms::All,
        Key::MediaPrevTrack => KeyPlatforms::All,
        Key::MediaRewind => KeyPlatforms::MacOsOnly,
        Key::MediaStop => KeyPlatforms::WindowsOrLinuxLike,
        Key::Meta => KeyPlatforms::All,
        Key::MissionControl => KeyPlatforms::MacOsOnly,
        Key::ModeChange => KeyPlatforms::WindowsOrLinuxLike,
        Key::Multiply => KeyPlatforms::WindowsOnly,
        Key::NavigationAccept => KeyPlatforms::WindowsOnly,
        Key::NavigationCancel => KeyPlatforms::WindowsOnly,
        Key::NavigationDown => KeyPlatforms::WindowsOnly,
        Key::NavigationLeft => KeyPlatforms::WindowsOnly,
        Key::NavigationMenu => KeyPlatforms::WindowsOnly,
        Key::NavigationRight => KeyPlatforms::WindowsOnly,
        Key::NavigationUp => KeyPlatforms::WindowsOnly,
        Key::NavigationView => KeyPlatforms::WindowsOnly,
        Key::NoName => KeyPlatforms::WindowsOnly,
        Key::NonConvert => KeyPlatforms::WindowsOnly,
        Key::NoneKey => KeyPlatforms::WindowsOnly,
        Key::Numlock => KeyPlatforms::WindowsOrLinuxLike,
        Key::Numpad0 => KeyPlatforms::WindowsOnly,
        Key::Numpad1 => KeyPlatforms::WindowsOnly,
        Key::Numpad2 => KeyPlatforms::WindowsOnly,
        Key::Numpad3 => KeyPlatforms::WindowsOnly,
        Key::Numpad4 => KeyPlatforms::WindowsOnly,
        Key::Numpad5 => KeyPlatforms::WindowsOnly,
        Key::Numpad6 => KeyPlatforms::WindowsOnly,
        Key::Numpad7 => KeyPlatforms::WindowsOnly,
        Key::Numpad8 => KeyPlatforms::WindowsOnly,
        Key::Numpad9 => KeyPlatforms::WindowsOnly,
        Key::OEM1 => KeyPlatforms::WindowsOnly,
        Key::OEM102 => KeyPlatforms::WindowsOnly,
        Key::OEM2 => KeyPlatforms::WindowsOnly,
        Key::OEM3 => KeyPlatforms::WindowsOnly,
        Key::OEM4 => KeyPlatforms::WindowsOnly,
        Key::OEM5 => KeyPlatforms::WindowsOnly,
        Key::OEM6 => KeyPlatforms::WindowsOnly,
        Key::OEM7 => KeyPlatforms::WindowsOnly,
        Key::OEM8 => KeyPlatforms::WindowsOnly,
        Key::OEMAttn => KeyPlatforms::WindowsOnly,
        Key::OEMAuto => KeyPlatforms::WindowsOnly,
        Key::OEMAx => KeyPlatforms::WindowsOnly,
        Key::OEMBacktab => KeyPlatforms::WindowsOnly,
        Key::OEMClear => KeyPlatforms::WindowsOnly,
        Key::OEMComma => KeyPlatforms::WindowsOnly,
        Key::OEMCopy => KeyPlatforms::WindowsOnly,
        Key::OEMCusel => KeyPlatforms::WindowsOnly,
        Key::OEMEnlw => KeyPlatforms::WindowsOnly,
        Key::OEMFinish => KeyPlatforms::WindowsOnly,
        Key::OEMFJJisho => KeyPlatforms::WindowsOnly,
        Key::OEMFJLoya => KeyPlatforms::WindowsOnly,
        Key::OEMFJMasshou => KeyPlatforms::WindowsOnly,
        Key::OEMFJRoya => KeyPlatforms::WindowsOnly,
        Key::OEMFJTouroku => KeyPlatforms::WindowsOnly,
        Key::OEMJump => KeyPlatforms::WindowsOnly,
        Key::OEMMinus => KeyPlatforms::WindowsOnly,
        Key::OEMNECEqual => KeyPlatforms::WindowsOnly,
        Key::OEMPA1 => KeyPlatforms::WindowsOnly,
        Key::OEMPA2 => KeyPlatforms::WindowsOnly,
        Key::OEMPA3 => KeyPlatforms::WindowsOnly,
        Key::OEMPeriod => KeyPlatforms::WindowsOnly,
        Key::OEMPlus => KeyPlatforms::WindowsOnly,
        Key::OEMReset => KeyPlatforms::WindowsOnly,
        Key::OEMWsctrl => KeyPlatforms::WindowsOnly,
        Key::OptionKey => KeyPlatforms::All,
        Key::PA1 => KeyPlatforms::WindowsOnly,
        Key::Packet => KeyPlatforms::WindowsOnly,
        Key::PageDown => KeyPlatforms::All,
        Key::PageUp => KeyPlatforms::All,
        Key::Pause => KeyPlatforms::WindowsOrLinuxLike,
        Key::Play => KeyPlatforms::WindowsOnly,
        Key::Power => KeyPlatforms::MacOsOnly,
        Key::Print => KeyPlatforms::WindowsOrLinuxLike,
        Key::PrintScr => KeyPlatforms::WindowsOrLinuxLike,
        Key::Processkey => KeyPlatforms::WindowsOnly,
        Key::RButton => KeyPlatforms::WindowsOnly,
        Key::RCommand => KeyPlatforms::MacOsOnly,
        Key::RControl => KeyPlatforms::All,
        Key::Redo => KeyPlatforms::LinuxLikeOnly,
        Key::Return => KeyPlatforms::All,
        Key::RightArrow => KeyPlatforms::All,
        Key::RMenu => KeyPlatforms::WindowsOnly,
        Key::ROption => KeyPlatforms::MacOsOnly,
        Key::RShift => KeyPlatforms::All,
        Key::RWin => KeyPlatforms::WindowsOnly,
        Key::Scroll => KeyPlatforms::WindowsOnly,
        Key::ScrollLock => KeyPlatforms::LinuxLikeOnly,
        Key::Select => KeyPlatforms::WindowsOrLinuxLike,
        Key::ScriptSwitch => KeyPlatforms::LinuxLikeOnly,
        Key::Separator => KeyPlatforms::WindowsOnly,
        Key::Shift => KeyPlatforms::All,
        Key::ShiftLock => KeyPlatforms::LinuxLikeOnly,
        Key::Sleep => KeyPlatforms::WindowsOnly,
        Key::Snapshot => KeyPlatforms::WindowsOnly,
        Key::Space => KeyPlatforms::All,
        Key::Subtract => KeyPlatforms::WindowsOnly,
        Key::SysReq => KeyPlatforms::LinuxLikeOnly,
        Key::Tab => KeyPlatforms::All,
        Key::Undo => KeyPlatforms::LinuxLikeOnly,
        Key::UpArrow => KeyPlatforms::All,
        Key::VidMirror => KeyPlatforms::MacOsOnly,
        Key::VolumeDown => KeyPlatforms::All,
        Key::VolumeMute => KeyPlatforms::All,
        Key::VolumeUp => KeyPlatforms::All,
        Key::MicMute => KeyPlatforms::LinuxLikeOnly,
        Key::XButton1 => KeyPlatforms::WindowsOnly,
        Key::XButton2 => KeyPlatforms::WindowsOnly,
        Key::Zoom => KeyPlatforms::WindowsOnly,
        Key::Unicode(..) => KeyPlatforms::All,
        Key::Other(..) => KeyPlatforms::All,
    }
}

/// The capability class of `k`; see [`key_available`].
pub fn key_platforms(k: &Key) -> (r: KeyPlatforms)
    ensures
        r == spec_key_platforms(*k),
{
    match k {
        Key::Num0 => KeyPlatforms::WindowsOnly,
        Key::Num1 => KeyPlatforms::WindowsOnly,
        Key::Num2 => KeyPlatforms::WindowsOnly,
        Key::Num3 => KeyPlatforms::WindowsOnly,
        Key::Num4 => KeyPlatforms::WindowsOnly,
        Key::Num5 => KeyPlatforms::WindowsOnly,
        Key::Num6 => KeyPlatforms::WindowsOnly,
        Key::Num7 => KeyPlatforms::WindowsOnly,
        Key::Num8 => KeyPlatforms::WindowsOnly,
        Key::Num9 => KeyPlatforms::WindowsOnly,
        Key::A => KeyPlatforms::WindowsOnly,
        Key::B => KeyPlatforms::WindowsOnly,
        Key::C => KeyPlatforms::WindowsOnly,
        Key::D => KeyPlatforms::WindowsOnly,
        Key::E => KeyPlatforms::WindowsOnly,
        Key::F => KeyPlatforms::WindowsOnly,
        Key::G => KeyPlatforms::WindowsOnly,
        Key::H => KeyPlatforms::WindowsOnly,
        Key::I => KeyPlatforms::WindowsOnly,
        Key::J => KeyPlatforms::WindowsOnly,
        Key::K => KeyPlatforms::WindowsOnly,
        Key::L => KeyPlatforms::WindowsOnly,
        Key::M => KeyPlatforms::WindowsOnly,
        Key::N => KeyPlatforms::WindowsOnly,
        Key::O => KeyPlatforms::WindowsOnly,
        Key::P => KeyPlatforms::WindowsOnly,
        Key::Q => KeyPlatforms::WindowsOnly,
        Key::R => KeyPlatforms::WindowsOnly,
        Key::S => KeyPlatforms::WindowsOnly,
        Key::T => KeyPlatforms::WindowsOnly,
        Key::U => KeyPlatforms::WindowsOnly,
        Key::V => KeyPlatforms::WindowsOnly,
        Key::W => KeyPlatforms::WindowsOnly,
        Key::X => KeyPlatforms::WindowsOnly,
        Key::Y => KeyPlatforms::WindowsOnly,
        Key::Z => KeyPlatforms::WindowsOnly,
        Key::AbntC1 => KeyPlatforms::WindowsOnly,
        Key::AbntC2 => KeyPlatforms::WindowsOnly,
        Key::Accept => KeyPlatforms::WindowsOnly,
        Key::Add => KeyPlatforms::WindowsOnly,
        Key::Alt => KeyPlatforms::All,
        Key::Apps => KeyPlatforms::WindowsOnly,
        Key::Attn => KeyPlatforms::WindowsOnly,
        Key::Backspace => KeyPlatforms::All,
        Key::Break => KeyPlatforms::LinuxLikeOnly,
        Key::Begin => KeyPlatforms::LinuxLikeOnly,
        Key::BrightnessDown => KeyPlatforms::MacOsOnly,
        Key::BrightnessUp => KeyPlatforms::MacOsOnly,
        Key::BrowserBack => KeyPlatforms::WindowsOnly,
        Key::BrowserFavorites => KeyPlatforms::WindowsOnly,
        Key::BrowserForward => KeyPlatforms::WindowsOnly,
        Key::BrowserHome => KeyPlatforms::WindowsOnly,
        Key::BrowserRefresh => KeyPlatforms::WindowsOnly,
        Key::BrowserSearch => KeyPlatforms::WindowsOnly,
        Key::BrowserStop => KeyPlatforms::WindowsOnly,
        Key::Cancel => KeyPlatforms::WindowsOrLinuxLike,
        Key::CapsLock => KeyPlatforms::All,
        Key::Clear => KeyPlatforms::WindowsOrLinuxLike,
        Key::ContrastUp => KeyPlatforms::MacOsOnly,
        Key::ContrastDown => KeyPlatforms::MacOsOnly,
        Key::Control => KeyPlatforms::All,
        Key::Convert => KeyPlatforms::WindowsOnly,
        Key::Crsel => KeyPlatforms::WindowsOnly,
        Key::DBEAlphanumeric => KeyPlatforms::WindowsOnly,
        Key::DBECodeinput => KeyPlatforms::WindowsOnly,
        Key::DBEDetermineString => KeyPlatforms::WindowsOnly,
        Key::DBEEnterDLGConversionMode => KeyPlatforms::WindowsOnly,
        Key::DBEEnterIMEConfigMode => KeyPlatforms::WindowsOnly,
        Key::DBEEnterWordRegisterMode => KeyPlatforms::WindowsOnly,
        Key::DBEFlushString => KeyPlatforms::WindowsOnly,
        Key::DBEHiragana => KeyPlatforms::WindowsOnly,
        Key::DBEKatakana => KeyPlatforms::WindowsOnly,
        Key::DBENoCodepoint => KeyPlatforms::WindowsOnly,
        Key::DBENoRoman => KeyPlatforms::WindowsOnly,
        Key::DBERoman => KeyPlatforms::WindowsOnly,
        Key::DBESBCSChar => KeyPlatforms::WindowsOnly,
        Key::DBESChar => KeyPlatforms::WindowsOnly,
        Key::Decimal => KeyPlatforms::WindowsOnly,
        Key::Delete => KeyPlatforms::All,
        Key::Divide => KeyPlatforms::WindowsOnly,
        Key::DownArrow => KeyPlatforms::All,
        Key::Eject => KeyPlatforms::MacOsOnly,
        Key::End => KeyPlatforms::All,
        Key::Ereof => KeyPlatforms::WindowsOnly,
        Key::Escape => KeyPlatforms::All,
        Key::Execute => KeyPlatforms::WindowsOrLinuxLike,
        Key::Exsel => KeyPlatforms::WindowsOnly,
        Key::F1 => KeyPlatforms::All,
        Key::F2 => KeyPlatforms::All,
        Key::F3 => KeyPlatforms::All,
        Key::F4 => KeyPlatforms::All,
        Key::F5 => KeyPlatforms::All,
        Key::F6 => KeyPlatforms::All,
        Key::F7 => KeyPlatforms::All,
        Key::F8 => KeyPlatforms::All,
        Key::F9 => KeyPlatforms::All,
        Key::F10 => KeyPlatforms::All,
        Key::F11 => KeyPlatforms::All,
        Key::F12 => KeyPlatforms::All,
        Key::F13 => KeyPlatforms::All,
        Key::F14 => KeyPlatforms::All,
        Key::F15 => KeyPlatforms::All,
        Key::F16 => KeyPlatforms::All,
        Key::F17 => KeyPlatforms::All,
        Key::F18 => KeyPlatforms::All,
        Key::F19 => KeyPlatforms::All,
        Key::F20 => KeyPlatforms::All,
        Key::F21 => KeyPlatforms::WindowsOrLinuxLike,
        Key::F22 => KeyPlatforms::WindowsOrLinuxLike,
        Key::F23 => KeyPlatforms::WindowsOrLinuxLike,
        Key::F24 => KeyPlatforms::WindowsOrLinuxLike,
        Key::F25 => KeyPlatforms::LinuxLikeOnly,
        Key::F26 => KeyPlatforms::LinuxLikeOnly,
        Key::F27 => KeyPlatforms::LinuxLikeOnly,
        Key::F28 => KeyPlatforms::LinuxLikeOnly,
        Key::F29 => KeyPlatforms::LinuxLikeOnly,
        Key::F30 => KeyPlatforms::LinuxLikeOnly,
        Key::F31 => KeyPlatforms::LinuxLikeOnly,
        Key::F32 => KeyPlatforms::LinuxLikeOnly,
        Key::F33 => KeyPlatforms::LinuxLikeOnly,
        Key::F34 => KeyPlatforms::LinuxLikeOnly,
        Key::F35 => KeyPlatforms::LinuxLikeOnly,
        Key::Function => KeyPlatforms::MacOsOnly,
        Key::Final => KeyPlatforms::WindowsOnly,
        Key::Find => KeyPlatforms::LinuxLikeOnly,
        Key::GamepadA => KeyPlatforms::WindowsOnly,
        Key::GamepadB => KeyPlatforms::WindowsOnly,
        Key::GamepadDPadDown => KeyPlatforms::WindowsOnly,
        Key::GamepadDPadLeft => KeyPlatforms::WindowsOnly,
        Key::GamepadDPadRight => KeyPlatforms::WindowsOnly,
        Key::GamepadDPadUp => KeyPlatforms::WindowsOnly,
        Key::GamepadLeftShoulder => KeyPlatforms::WindowsOnly,
        Key::GamepadLeftThumbstickButton => KeyPlatforms::WindowsOnly,
        Key::GamepadLeftThumbstickDown => KeyPlatforms::WindowsOnly,
        Key::GamepadLeftThumbstickLeft => KeyPlatforms::WindowsOnly,
        Key::GamepadLeftThumbstickRight => KeyPlatforms::WindowsOnly,
        Key::GamepadLeftThumbstickUp => KeyPlatforms::WindowsOnly,
        Key::GamepadLeftTrigger => KeyPlatforms::WindowsOnly,
        Key::GamepadMenu => KeyPlatforms::WindowsOnly,
        Key::GamepadRightShoulder => KeyPlatforms::WindowsOnly,
        Key::GamepadRightThumbstickButton => KeyPlatforms::WindowsOnly,
        Key::GamepadRightThumbstickDown => KeyPlatforms::WindowsOnly,
        Key::GamepadRightThumbstickLeft => KeyPlatforms::WindowsOnly,
        Key::GamepadRightThumbstickRight => KeyPlatforms::WindowsOnly,
        Key::GamepadRightThumbstickUp => KeyPlatforms::WindowsOnly,
        Key::GamepadRightTrigger => KeyPlatforms::WindowsOnly,
        Key::GamepadView => KeyPlatforms::WindowsOnly,
        Key::GamepadX => KeyPlatforms::WindowsOnly,
        Key::GamepadY => KeyPlatforms::WindowsOnly,
        Key::Hangeul => KeyPlatforms::WindowsOnly,
        Key::Hangul => KeyPlatforms::WindowsOrLinuxLike,
        Key::Hanja => KeyPlatforms::WindowsOrLinuxLike,
        Key::Help => KeyPlatforms::All,
        Key::Home => KeyPlatforms::All,
        Key::Ico00 => KeyPlatforms::WindowsOnly,
        Key::IcoClear => KeyPlatforms::WindowsOnly,
        Key::IcoHelp => KeyPlatforms::WindowsOnly,
        Key::IlluminationDown => KeyPlatforms::MacOsOnly,
        Key::IlluminationUp => KeyPlatforms::MacOsOnly,
        Key::IlluminationToggle => KeyPlatforms::MacOsOnly,
        Key::IMEOff => KeyPlatforms::WindowsOnly,
        Key::IMEOn => KeyPlatforms::WindowsOnly,
        Key::Insert => KeyPlatforms::WindowsOrLinuxLike,
        Key::Junja => KeyPlatforms::WindowsOnly,
        Key::Kana => KeyPlatforms::WindowsOnly,
        Key::Kanji => KeyPlatforms::WindowsOrLinuxLike,
        Key::LaunchApp1 => KeyPlatforms::WindowsOnly,
        Key::LaunchApp2 => KeyPlatforms::WindowsOnly,
        Key::LaunchMail => KeyPlatforms::WindowsOnly,
        Key::LaunchMediaSelect => KeyPlatforms::WindowsOnly,
        Key::Launchpad => KeyPlatforms::MacOsOnly,
        Key::LaunchPanel => KeyPlatforms::MacOsOnly,
        Key::LButton => KeyPlatforms::WindowsOnly,
        Key::LControl => KeyPlatforms::All,
        Key::LeftArrow => KeyPlatforms::All,
        Key::Linefeed => KeyPlatforms::LinuxLikeOnly,
        Key::LMenu => KeyPlatforms::WindowsOrLinuxLike,
        Key::LShift => KeyPlatforms::All,
        Key::LWin => KeyPlatforms::WindowsOnly,
        Key::MButton => KeyPlatforms::WindowsOnly,
        Key::MediaFast => KeyPlatforms::MacOsOnly,
        Key::MediaNextTrack => KeyPlatforms::All,
        Key::MediaPlayPause => KeyPlatforms::All,
        Key::MediaPrevTrack => KeyPlatforms::All,
        Key::MediaRewind => KeyPlatforms::MacOsOnly,
        Key::MediaStop => KeyPlatforms::WindowsOrLinuxLike,
        Key::Meta => KeyPlatforms::All,
        Key::MissionControl => KeyPlatforms::MacOsOnly,
        Key::ModeChange => KeyPlatforms::WindowsOrLinuxLike,
        Key::Multiply => KeyPlatforms::WindowsOnly,
        Key::NavigationAccept => KeyPlatforms::WindowsOnly,
        Key::NavigationCancel => KeyPlatforms::WindowsOnly,
        Key::NavigationDown => KeyPlatforms::WindowsOnly,
        Key::NavigationLeft => KeyPlatforms::WindowsOnly,
        Key::NavigationMenu => KeyPlatforms::WindowsOnly,
        Key::NavigationRight => KeyPlatforms::WindowsOnly,
        Key::NavigationUp => KeyPlatforms::WindowsOnly,
        Key::NavigationView => KeyPlatforms::WindowsOnly,
        Key::NoName => KeyPlatforms::WindowsOnly,
        Key::NonConvert => KeyPlatforms::WindowsOnly,
        Key::NoneKey => KeyPlatforms::WindowsOnly,
        Key::Numlock => KeyPlatforms::WindowsOrLinuxLike,
        Key::Numpad0 => KeyPlatforms::WindowsOnly,
        Key::Numpad1 => KeyPlatforms::WindowsOnly,
        Key::Numpad2 => KeyPlatforms::WindowsOnly,
        Key::Numpad3 => KeyPlatforms::WindowsOnly,
        Key::Numpad4 => KeyPlatforms::WindowsOnly,
        Key::Numpad5 => KeyPlatforms::WindowsOnly,
        Key::Numpad6 => KeyPlatforms::WindowsOnly,
        Key::Numpad7 => KeyPlatforms::WindowsOnly,
        Key::Numpad8 => KeyPlatforms::WindowsOnly,
        Key::Numpad9 => KeyPlatforms::WindowsOnly,
        Key::OEM1 => KeyPlatforms::WindowsOnly,
        Key::OEM102 => KeyPlatforms::WindowsOnly,
        Key::OEM2 => KeyPlatforms::WindowsOnly,
        Key::OEM3 => KeyPlatforms::WindowsOnly,
        Key::OEM4 => KeyPlatforms::WindowsOnly,
        Key::OEM5 => KeyPlatforms::WindowsOnly,
        Key::OEM6 => KeyPlatforms::WindowsOnly,
        Key::OEM7 => KeyPlatforms::WindowsOnly,
        Key::OEM8 => KeyPlatforms::WindowsOnly,
        Key::OEMAttn => KeyPlatforms::WindowsOnly,
        Key::OEMAuto => KeyPlatforms::WindowsOnly,
        Key::OEMAx => KeyPlatforms::WindowsOnly,
        Key::OEMBacktab => KeyPlatforms::WindowsOnly,
        Key::OEMClear => KeyPlatforms::WindowsOnly,
        Key::OEMComma => KeyPlatforms::WindowsOnly,
        Key::OEMCopy => KeyPlatforms::WindowsOnly,
        Key::OEMCusel => KeyPlatforms::WindowsOnly,
        Key::OEMEnlw => KeyPlatforms::WindowsOnly,
        Key::OEMFinish => KeyPlatforms::WindowsOnly,
        Key::OEMFJJisho => KeyPlatforms::WindowsOnly,
        Key::OEMFJLoya => KeyPlatforms::WindowsOnly,
        Key::OEMFJMasshou => KeyPlatforms::WindowsOnly,
        Key::OEMFJRoya => KeyPlatforms::WindowsOnly,
        Key::OEMFJTouroku => KeyPlatforms::WindowsOnly,
        Key::OEMJump => KeyPlatforms::WindowsOnly,
        Key::OEMMinus => KeyPlatforms::WindowsOnly,
        Key::OEMNECEqual => KeyPlatforms::WindowsOnly,
        Key::OEMPA1 => KeyPlatforms::WindowsOnly,
        Key::OEMPA2 => KeyPlatforms::WindowsOnly,
        Key::OEMPA3 => KeyPlatforms::WindowsOnly,
        Key::OEMPeriod => KeyPlatforms::WindowsOnly,
        Key::OEMPlus => KeyPlatforms::WindowsOnly,
        Key::OEMReset => KeyPlatforms::WindowsOnly,
        Key::OEMWsctrl => KeyPlatforms::WindowsOnly,
        Key::OptionKey => KeyPlatforms::All,
        Key::PA1 => KeyPlatforms::WindowsOnly,
        Key::Packet => KeyPlatforms::WindowsOnly,
        Key::PageDown => KeyPlatforms::All,
        Key::PageUp => KeyPlatforms::All,
        Key::Pause => KeyPlatforms::WindowsOrLinuxLike,
        Key::Play => KeyPlatforms::WindowsOnly,
        Key::Power => KeyPlatforms::MacOsOnly,
        Key::Print => KeyPlatforms::WindowsOrLinuxLike,
        Key::PrintScr => KeyPlatforms::WindowsOrLinuxLike,
        Key::Processkey => KeyPlatforms::WindowsOnly,
        Key::RButton => KeyPlatforms::WindowsOnly,
        Key::RCommand => KeyPlatforms::MacOsOnly,
        Key::RControl => KeyPlatforms::All,
        Key::Redo => KeyPlatforms::LinuxLikeOnly,
        Key::Return => KeyPlatforms::All,
        Key::RightArrow => KeyPlatforms::All,
        Key::RMenu => KeyPlatforms::WindowsOnly,
        Key::ROption => KeyPlatforms::MacOsOnly,
        Key::RShift => KeyPlatforms::All,
        Key::RWin => KeyPlatforms::WindowsOnly,
        Key::Scroll => KeyPlatforms::WindowsOnly,
        Key::ScrollLock => KeyPlatforms::LinuxLikeOnly,
        Key::Select => KeyPlatforms::WindowsOrLinuxLike,
        Key::ScriptSwitch => KeyPlatforms::LinuxLikeOnly,
        Key::Separator => KeyPlatforms::WindowsOnly,
        Key::Shift => KeyPlatforms::All,
        Key::ShiftLock => KeyPlatforms::LinuxLikeOnly,
        Key::Sleep => KeyPlatforms::WindowsOnly,
        Key::Snapshot => KeyPlatforms::WindowsOnly,
        Key::Space => KeyPlatforms::All,
        Key::Subtract => KeyPlatforms::WindowsOnly,
        Key::SysReq => KeyPlatforms::LinuxLikeOnly,
        Key::Tab => KeyPlatforms::All,
        Key::Undo => KeyPlatforms::LinuxLikeOnly,
        Key::UpArrow => KeyPlatforms::All,
        Key::VidMirror => KeyPlatforms::MacOsOnly,
        Key::VolumeDown => KeyPlatforms::All,
        Key::VolumeMute => KeyPlatforms::All,
        Key::VolumeUp => KeyPlatforms::All,
        Key::MicMute => KeyPlatforms::LinuxLikeOnly,
        Key::XButton1 => KeyPlatforms::WindowsOnly,
        Key::XButton2 => KeyPlatforms::WindowsOnly,
        Key::Zoom => KeyPlatforms::WindowsOnly,
        Key::Unicode(..) => KeyPlatforms::All,
        Key::Other(..) => KeyPlatforms::All,
    }
}

/// Whether `k` is meaningful on platform `p`.
pub open spec fn spec_key_available(k: Key, p: Platform) -> bool {
    match spec_key_platforms(k) {
        KeyPlatforms::All => true,
        KeyPlatforms::WindowsOnly => p == Platform::Windows,
        KeyPlatforms::MacOsOnly => p == Platform::MacOs,
        KeyPlatforms::LinuxLikeOnly => p == Platform::LinuxLike,
        KeyPlatforms::WindowsOrLinuxLike => p == Platform::Windows || p == Platform::LinuxLike,
    }
}

/// Whether `k` is meaningful on platform `p`.  Callers check this before
/// building a token around `k`; the crate itself never assumes a variant is
/// universal.
pub fn key_available(k: &Key, p: Platform) -> (r: bool)
    ensures
        r == spec_key_available(*k, p),
{
    let ps = key_platforms(k);
    match ps {
        KeyPlatforms::All => true,
        KeyPlatforms::WindowsOnly => matches!(p, Platform::Windows),
        KeyPlatforms::MacOsOnly => matches!(p, Platform::MacOs),
        KeyPlatforms::LinuxLikeOnly => matches!(p, Platform::LinuxLike),
        KeyPlatforms::WindowsOrLinuxLike => matches!(p, Platform::Windows | Platform::LinuxLike),
    }
}

/// Whether `k` carries no payload, so that its wire form is its bare name.
pub open spec fn key_is_unit(k: Key) -> bool {
    !(k matches Key::Unicode(_)) && !(k matches Key::Other(_))
}

/// The canonical wire name of a payload-free key.
pub open spec fn spec_key_name(k: Key) -> Seq<char> {
    match k {
        Key::Num0 => "Num0"@,
        Key::Num1 => "Num1"@,
        Key::Num2 => "Num2"@,
        Key::Num3 => "Num3"@,
        Key::Num4 => "Num4"@,
        Key::Num5 => "Num5"@,
        Key::Num6 => "Num6"@,
        Key::Num7 => "Num7"@,
        Key::Num8 => "Num8"@,
        Key::Num9 => "Num9"@,
        Key::A => "A"@,
        Key::B => "B"@,
        Key::C => "C"@,
        Key::D => "D"@,
        Key::E => "E"@,
        Key::F => "F"@,
        Key::G => "G"@,
        Key::H => "H"@,
        Key::I => "I"@,
        Key::J => "J"@,
        Key::K => "K"@,
        Key::L => "L"@,
        Key::M => "M"@,
        Key::N => "N"@,
        Key::O => "O"@,
        Key::P => "P"@,
        Key::Q => "Q"@,
        Key::R => "R"@,
        Key::S => "S"@,
        Key::T => "T"@,
        Key::U => "U"@,
        Key::V => "V"@,
        Key::W => "W"@,
        Key::X => "X"@,
        Key::Y => "Y"@,
        Key::Z => "Z"@,
        Key::AbntC1 => "AbntC1"@,
        Key::AbntC2 => "AbntC2"@,
        Key::Accept => "Accept"@,
        Key::Add => "Add"@,
        Key::Alt => "Alt"@,
        Key::Apps => "Apps"@,
        Key::Attn => "Attn"@,
        Key::Backspace => "Backspace"@,
        Key::Break => "Break"@,
        Key::Begin => "Begin"@,
        Key::BrightnessDown => "BrightnessDown"@,
        Key::BrightnessUp => "BrightnessUp"@,
        Key::BrowserBack => "BrowserBack"@,
        Key::BrowserFavorites => "BrowserFavorites"@,
        Key::BrowserForward => "BrowserForward"@,
        Key::BrowserHome => "BrowserHome"@,
        Key::BrowserRefresh => "BrowserRefresh"@,
        Key::BrowserSearch => "BrowserSearch"@,
        Key::BrowserStop => "BrowserStop"@,
        Key::Cancel => "Cancel"@,
        Key::CapsLock => "CapsLock"@,
        Key::Clear => "Clear"@,
        Key::ContrastUp => "ContrastUp"@,
        Key::ContrastDown => "ContrastDown"@,
        Key::Control => "Control"@,
        Key::Convert => "Convert"@,
        Key::Crsel => "Crsel"@,
        Key::DBEAlphanumeric => "DBEAlphanumeric"@,
        Key::DBECodeinput => "DBECodeinput"@,
        Key::DBEDetermineString => "DBEDetermineString"@,
        Key::DBEEnterDLGConversionMode => "DBEEnterDLGConversionMode"@,
        Key::DBEEnterIMEConfigMode => "DBEEnterIMEConfigMode"@,
        Key::DBEEnterWordRegisterMode => "DBEEnterWordRegisterMode"@,
        Key::DBEFlushString => "DBEFlushString"@,
        Key::DBEHiragana => "DBEHiragana"@,
        Key::DBEKatakana => "DBEKatakana"@,
        Key::DBENoCodepoint => "DBENoCodepoint"@,
        Key::DBENoRoman => "DBENoRoman"@,
        Key::DBERoman => "DBERoman"@,
        Key::DBESBCSChar => "DBESBCSChar"@,
        Key::DBESChar => "DBESChar"@,
        Key::Decimal => "Decimal"@,
        Key::Delete => "Delete"@,
        Key::Divide => "Divide"@,
        Key::DownArrow => "DownArrow"@,
        Key::Eject => "Eject"@,
        Key::End => "End"@,
        Key::Ereof => "Ereof"@,
        Key::Escape => "Escape"@,
        Key::Execute => "Execute"@,
        Key::Exsel => "Exsel"@,
        Key::F1 => "F1"@,
        Key::F2 => "F2"@,
        Key::F3 => "F3"@,
        Key::F4 => "F4"@,
        Key::F5 => "F5"@,
        Key::F6 => "F6"@,
        Key::F7 => "F7"@,
        Key::F8 => "F8"@,
        Key::F9 => "F9"@,
        Key::F10 => "F10"@,
        Key::F11 => "F11"@,
        Key::F12 => "F12"@,
        Key::F13 => "F13"@,
        Key::F14 => "F14"@,
        Key::F15 => "F15"@,
        Key::F16 => "F16"@,
        Key::F17 => "F17"@,
        Key::F18 => "F18"@,
        Key::F19 => "F19"@,
        Key::F20 => "F20"@,
        Key::F21 => "F21"@,
        Key::F22 => "F22"@,
        Key::F23 => "F23"@,
        Key::F24 => "F24"@,
        Key::F25 => "F25"@,
        Key::F26 => "F26"@,
        Key::F27 => "F27"@,
        Key::F28 => "F28"@,
        Key::F29 => "F29"@,
        Key::F30 => "F30"@,
        Key::F31 => "F31"@,
        Key::F32 => "F32"@,
        Key::F33 => "F33"@,
        Key::F34 => "F34"@,
        Key::F35 => "F35"@,
        Key::Function => "Function"@,
        Key::Final => "Final"@,
        Key::Find => "Find"@,
        Key::GamepadA => "GamepadA"@,
        Key::GamepadB => "GamepadB"@,
        Key::GamepadDPadDown => "GamepadDPadDown"@,
        Key::GamepadDPadLeft => "GamepadDPadLeft"@,
        Key::GamepadDPadRight => "GamepadDPadRight"@,
        Key::GamepadDPadUp => "GamepadDPadUp"@,
        Key::GamepadLeftShoulder => "GamepadLeftShoulder"@,
        Key::GamepadLeftThumbstickButton => "GamepadLeftThumbstickButton"@,
        Key::GamepadLeftThumbstickDown => "GamepadLeftThumbstickDown"@,
        Key::GamepadLeftThumbstickLeft => "GamepadLeftThumbstickLeft"@,
        Key::GamepadLeftThumbstickRight => "GamepadLeftThumbstickRight"@,
        Key::GamepadLeftThumbstickUp => "GamepadLeftThumbstickUp"@,
        Key::GamepadLeftTrigger => "GamepadLeftTrigger"@,
        Key::GamepadMenu => "GamepadMenu"@,
        Key::GamepadRightShoulder => "GamepadRightShoulder"@,
        Key::GamepadRightThumbstickButton => "GamepadRightThumbstickButton"@,
        Key::GamepadRightThumbstickDown => "GamepadRightThumbstickDown"@,
        Key::GamepadRightThumbstickLeft => "GamepadRightThumbstickLeft"@,
        Key::GamepadRightThumbstickRight => "GamepadRightThumbstickRight"@,
        Key::GamepadRightThumbstickUp => "GamepadRightThumbstickUp"@,
        Key::GamepadRightTrigger => "GamepadRightTrigger"@,
        Key::GamepadView => "GamepadView"@,
        Key::GamepadX => "GamepadX"@,
        Key::GamepadY => "GamepadY"@,
        Key::Hangeul => "Hangeul"@,
        Key::Hangul => "Hangul"@,
        Key::Hanja => "Hanja"@,
        Key::Help => "Help"@,
        Key::Home => "Home"@,
        Key::Ico00 => "Ico00"@,
        Key::IcoClear => "IcoClear"@,
        Key::IcoHelp => "IcoHelp"@,
        Key::IlluminationDown => "IlluminationDown"@,
        Key::IlluminationUp => "IlluminationUp"@,
        Key::IlluminationToggle => "IlluminationToggle"@,
        Key::IMEOff => "IMEOff"@,
        Key::IMEOn => "IMEOn"@,
        Key::Insert => "Insert"@,
        Key::Junja => "Junja"@,
        Key::Kana => "Kana"@,
        Key::Kanji => "Kanji"@,
        Key::LaunchApp1 => "LaunchApp1"@,
        Key::LaunchApp2 => "LaunchApp2"@,
        Key::LaunchMail => "LaunchMail"@,
        Key::LaunchMediaSelect => "LaunchMediaSelect"@,
        Key::Launchpad => "Launchpad"@,
        Key::LaunchPanel => "LaunchPanel"@,
        Key::LButton => "LButton"@,
        Key::LControl => "LControl"@,
        Key::LeftArrow => "LeftArrow"@,
        Key::Linefeed => "Linefeed"@,
        Key::LMenu => "LMenu"@,
        Key::LShift => "LShift"@,
        Key::LWin => "LWin"@,
        Key::MButton => "MButton"@,
        Key::MediaFast => "MediaFast"@,
        Key::MediaNextTrack => "MediaNextTrack"@,
        Key::MediaPlayPause => "MediaPlayPause"@,
        Key::MediaPrevTrack => "MediaPrevTrack"@,
        Key::MediaRewind => "MediaRewind"@,
        Key::MediaStop => "MediaStop"@,
        Key::Meta => "Meta"@,
        Key::MissionControl => "MissionControl"@,
        Key::ModeChange => "ModeChange"@,
        Key::Multiply => "Multiply"@,
        Key::NavigationAccept => "NavigationAccept"@,
        Key::NavigationCancel => "NavigationCancel"@,
        Key::NavigationDown => "NavigationDown"@,
        Key::NavigationLeft => "NavigationLeft"@,
        Key::NavigationMenu => "NavigationMenu"@,
        Key::NavigationRight => "NavigationRight"@,
        Key::NavigationUp => "NavigationUp"@,
        Key::NavigationView => "NavigationView"@,
        Key::NoName => "NoName"@,
        Key::NonConvert => "NonConvert"@,
        Key::NoneKey => "None"@,
        Key::Numlock => "Numlock"@,
        Key::Numpad0 => "Numpad0"@,
        Key::Numpad1 => "Numpad1"@,
        Key::Numpad2 => "Numpad2"@,
        Key::Numpad3 => "Numpad3"@,
        Key::Numpad4 => "Numpad4"@,
        Key::Numpad5 => "Numpad5"@,
        Key::Numpad6 => "Numpad6"@,
        Key::Numpad7 => "Numpad7"@,
        Key::Numpad8 => "Numpad8"@,
        Key::Numpad9 => "Numpad9"@,
        Key::OEM1 => "OEM1"@,
        Key::OEM102 => "OEM102"@,
        Key::OEM2 => "OEM2"@,
        Key::OEM3 => "OEM3"@,
        Key::OEM4 => "OEM4"@,
        Key::OEM5 => "OEM5"@,
        Key::OEM6 => "OEM6"@,
        Key::OEM7 => "OEM7"@,
        Key::OEM8 => "OEM8"@,
        Key::OEMAttn => "OEMAttn"@,
        Key::OEMAuto => "OEMAuto"@,
        Key::OEMAx => "OEMAx"@,
        Key::OEMBacktab => "OEMBacktab"@,
        Key::OEMClear => "OEMClear"@,
        Key::OEMComma => "OEMComma"@,
        Key::OEMCopy => "OEMCopy"@,
        Key::OEMCusel => "OEMCusel"@,
        Key::OEMEnlw => "OEMEnlw"@,
        Key::OEMFinish => "OEMFinish"@,
        Key::OEMFJJisho => "OEMFJJisho"@,
        Key::OEMFJLoya => "OEMFJLoya"@,
        Key::OEMFJMasshou => "OEMFJMasshou"@,
        Key::OEMFJRoya => "OEMFJRoya"@,
        Key::OEMFJTouroku => "OEMFJTouroku"@,
        Key::OEMJump => "OEMJump"@,
        Key::OEMMinus => "OEMMinus"@,
        Key::OEMNECEqual => "OEMNECEqual"@,
        Key::OEMPA1 => "OEMPA1"@,
        Key::OEMPA2 => "OEMPA2"@,
        Key::OEMPA3 => "OEMPA3"@,
        Key::OEMPeriod => "OEMPeriod"@,
        Key::OEMPlus => "OEMPlus"@,
        Key::OEMReset => "OEMReset"@,
        Key::OEMWsctrl => "OEMWsctrl"@,
        Key::OptionKey => "Option"@,
        Key::PA1 => "PA1"@,
        Key::Packet => "Packet"@,
        Key::PageDown => "PageDown"@,
        Key::PageUp => "PageUp"@,
        Key::Pause => "Pause"@,
        Key::Play => "Play"@,
        Key::Power => "Power"@,
        Key::Print => "Print"@,
        Key::PrintScr => "PrintScr"@,
        Key::Processkey => "Processkey"@,
        Key::RButton => "RButton"@,
        Key::RCommand => "RCommand"@,
        Key::RControl => "RControl"@,
        Key::Redo => "Redo"@,
        Key::Return => "Return"@,
        Key::RightArrow => "RightArrow"@,
        Key::RMenu => "RMenu"@,
        Key::ROption => "ROption"@,
        Key::RShift => "RShift"@,
        Key::RWin => "RWin"@,
        Key::Scroll => "Scroll"@,
        Key::ScrollLock => "ScrollLock"@,
        Key::Select => "Select"@,
        Key::ScriptSwitch => "ScriptSwitch"@,
        Key::Separator => "Separator"@,
        Key::Shift => "Shift"@,
        Key::ShiftLock => "ShiftLock"@,
        Key::Sleep => "Sleep"@,
        Key::Snapshot => "Snapshot"@,
        Key::Space => "Space"@,
        Key::Subtract => "Subtract"@,
        Key::SysReq => "SysReq"@,
        Key::Tab => "Tab"@,
        Key::Undo => "Undo"@,
        Key::UpArrow => "UpArrow"@,
        Key::VidMirror => "VidMirror"@,
        Key::VolumeDown => "VolumeDown"@,
        Key::VolumeMute => "VolumeMute"@,
        Key::VolumeUp => "VolumeUp"@,
        Key::MicMute => "MicMute"@,
        Key::XButton1 => "XButton1"@,
        Key::XButton2 => "XButton2"@,
        Key::Zoom => "Zoom"@,
        _ => Seq::empty(),
    }
}

/// The canonical wire name of a payload-free key.
pub fn key_name_str(k: &Key) -> (r: &'static str)
    requires
        key_is_unit(*k),
    ensures
        r@ == spec_key_name(*k),
{
    match k {
        Key::Num0 => "Num0",
        Key::Num1 => "Num1",
        Key::Num2 => "Num2",
        Key::Num3 => "Num3",
        Key::Num4 => "Num4",
        Key::Num5 => "Num5",
        Key::Num6 => "Num6",
        Key::Num7 => "Num7",
        Key::Num8 => "Num8",
        Key::Num9 => "Num9",
        Key::A => "A",
        Key::B => "B",
        Key::C => "C",
        Key::D => "D",
        Key::E => "E",
        Key::F => "F",
        Key::G => "G",
        Key::H => "H",
        Key::I => "I",
        Key::J => "J",
        Key::K => "K",
        Key::L => "L",
        Key::M => "M",
        Key::N => "N",
        Key::O => "O",
        Key::P => "P",
        Key::Q => "Q",
        Key::R => "R",
        Key::S => "S",
        Key::T => "T",
        Key::U => "U",
        Key::V => "V",
        Key::W => "W",
        Key::X => "X",
        Key::Y => "Y",
        Key::Z => "Z",
        Key::AbntC1 => "AbntC1",
        Key::AbntC2 => "AbntC2",
        Key::Accept => "Accept",
        Key::Add => "Add",
        Key::Alt => "Alt",
        Key::Apps => "Apps",
        Key::Attn => "Attn",
        Key::Backspace => "Backspace",
        Key::Break => "Break",
        Key::Begin => "Begin",
        Key::BrightnessDown => "BrightnessDown",
        Key::BrightnessUp => "BrightnessUp",
        Key::BrowserBack => "BrowserBack",
        Key::BrowserFavorites => "BrowserFavorites",
        Key::BrowserForward => "BrowserForward",
        Key::BrowserHome => "BrowserHome",
        Key::BrowserRefresh => "BrowserRefresh",
        Key::BrowserSearch => "BrowserSearch",
        Key::BrowserStop => "BrowserStop",
        Key::Cancel => "Cancel",
        Key::CapsLock => "CapsLock",
        Key::Clear => "Clear",
        Key::ContrastUp => "ContrastUp",
        Key::ContrastDown => "ContrastDown",
        Key::Control => "Control",
        Key::Convert => "Convert",
        Key::Crsel => "Crsel",
        Key::DBEAlphanumeric => "DBEAlphanumeric",
        Key::DBECodeinput => "DBECodeinput",
        Key::DBEDetermineString => "DBEDetermineString",
        Key::DBEEnterDLGConversionMode => "DBEEnterDLGConversionMode",
        Key::DBEEnterIMEConfigMode => "DBEEnterIMEConfigMode",
        Key::DBEEnterWordRegisterMode => "DBEEnterWordRegisterMode",
        Key::DBEFlushString => "DBEFlushString",
        Key::DBEHiragana => "DBEHiragana",
        Key::DBEKatakana => "DBEKatakana",
        Key::DBENoCodepoint => "DBENoCodepoint",
        Key::DBENoRoman => "DBENoRoman",
        Key::DBERoman => "DBERoman",
        Key::DBESBCSChar => "DBESBCSChar",
        Key::DBESChar => "DBESChar",
        Key::Decimal => "Decimal",
        Key::Delete => "Delete",
        Key::Divide => "Divide",
        Key::DownArrow => "DownArrow",
        Key::Eject => "Eject",
        Key::End => "End",
        Key::Ereof => "Ereof",
        Key::Escape => "Escape",
        Key::Execute => "Execute",
        Key::Exsel => "Exsel",
        Key::F1 => "F1",
        Key::F2 => "F2",
        Key::F3 => "F3",
        Key::F4 => "F4",
        Key::F5 => "F5",
        Key::F6 => "F6",
        Key::F7 => "F7",
        Key::F8 => "F8",
        Key::F9 => "F9",
        Key::F10 => "F10",
        Key::F11 => "F11",
        Key::F12 => "F12",
        Key::F13 => "F13",
        Key::F14 => "F14",
        Key::F15 => "F15",
        Key::F16 => "F16",
        Key::F17 => "F17",
        Key::F18 => "F18",
        Key::F19 => "F19",
        Key::F20 => "F20",
        Key::F21 => "F21",
        Key::F22 => "F22",
        Key::F23 => "F23",
        Key::F24 => "F24",
        Key::F25 => "F25",
        Key::F26 => "F26",
        Key::F27 => "F27",
        Key::F28 => "F28",
        Key::F29 => "F29",
        Key::F30 => "F30",
        Key::F31 => "F31",
        Key::F32 => "F32",
        Key::F33 => "F33",
        Key::F34 => "F34",
        Key::F35 => "F35",
        Key::Function => "Function",
        Key::Final => "Final",
        Key::Find => "Find",
        Key::GamepadA => "GamepadA",
        Key::GamepadB => "GamepadB",
        Key::GamepadDPadDown => "GamepadDPadDown",
        Key::GamepadDPadLeft => "GamepadDPadLeft",
        Key::GamepadDPadRight => "GamepadDPadRight",
        Key::GamepadDPadUp => "GamepadDPadUp",
        Key::GamepadLeftShoulder => "GamepadLeftShoulder",
        Key::GamepadLeftThumbstickButton => "GamepadLeftThumbstickButton",
        Key::GamepadLeftThumbstickDown => "GamepadLeftThumbstickDown",
        Key::GamepadLeftThumbstickLeft => "GamepadLeftThumbstickLeft",
        Key::GamepadLeftThumbstickRight => "GamepadLeftThumbstickRight",
        Key::GamepadLeftThumbstickUp => "GamepadLeftThumbstickUp",
        Key::GamepadLeftTrigger => "GamepadLeftTrigger",
        Key::GamepadMenu => "GamepadMenu",
        Key::GamepadRightShoulder => "GamepadRightShoulder",
        Key::GamepadRightThumbstickButton => "GamepadRightThumbstickButton",
        Key::GamepadRightThumbstickDown => "GamepadRightThumbstickDown",
        Key::GamepadRightThumbstickLeft => "GamepadRightThumbstickLeft",
        Key::GamepadRightThumbstickRight => "GamepadRightThumbstickRight",
        Key::GamepadRightThumbstickUp => "GamepadRightThumbstickUp",
        Key::GamepadRightTrigger => "GamepadRightTrigger",
        Key::GamepadView => "GamepadView",
        Key::GamepadX => "GamepadX",
        Key::GamepadY => "GamepadY",
        Key::Hangeul => "Hangeul",
        Key::Hangul => "Hangul",
        Key::Hanja => "Hanja",
        Key::Help => "Help",
        Key::Home => "Home",
        Key::Ico00 => "Ico00",
        Key::IcoClear => "IcoClear",
        Key::IcoHelp => "IcoHelp",
        Key::IlluminationDown => "IlluminationDown",
        Key::IlluminationUp => "IlluminationUp",
        Key::IlluminationToggle => "IlluminationToggle",
        Key::IMEOff => "IMEOff",
        Key::IMEOn => "IMEOn",
        Key::Insert => "Insert",
        Key::Junja => "Junja",
        Key::Kana => "Kana",
        Key::Kanji => "Kanji",
        Key::LaunchApp1 => "LaunchApp1",
        Key::LaunchApp2 => "LaunchApp2",
        Key::LaunchMail => "LaunchMail",
        Key::LaunchMediaSelect => "LaunchMediaSelect",
        Key::Launchpad => "Launchpad",
        Key::LaunchPanel => "LaunchPanel",
        Key::LButton => "LButton",
        Key::LControl => "LControl",
        Key::LeftArrow => "LeftArrow",
        Key::Linefeed => "Linefeed",
        Key::LMenu => "LMenu",
        Key::LShift => "LShift",
        Key::LWin => "LWin",
        Key::MButton => "MButton",
        Key::MediaFast => "MediaFast",
        Key::MediaNextTrack => "MediaNextTrack",
        Key::MediaPlayPause => "MediaPlayPause",
        Key::MediaPrevTrack => "MediaPrevTrack",
        Key::MediaRewind => "MediaRewind",
        Key::MediaStop => "MediaStop",
        Key::Meta => "Meta",
        Key::MissionControl => "MissionControl",
        Key::ModeChange => "ModeChange",
        Key::Multiply => "Multiply",
        Key::NavigationAccept => "NavigationAccept",
        Key::NavigationCancel => "NavigationCancel",
        Key::NavigationDown => "NavigationDown",
        Key::NavigationLeft => "NavigationLeft",
        Key::NavigationMenu => "NavigationMenu",
        Key::NavigationRight => "NavigationRight",
        Key::NavigationUp => "NavigationUp",
        Key::NavigationView => "NavigationView",
        Key::NoName => "NoName",
        Key::NonConvert => "NonConvert",
        Key::NoneKey => "None",
        Key::Numlock => "Numlock",
        Key::Numpad0 => "Numpad0",
        Key::Numpad1 => "Numpad1",
        Key::Numpad2 => "Numpad2",
        Key::Numpad3 => "Numpad3",
        Key::Numpad4 => "Numpad4",
        Key::Numpad5 => "Numpad5",
        Key::Numpad6 => "Numpad6",
        Key::Numpad7 => "Numpad7",
        Key::Numpad8 => "Numpad8",
        Key::Numpad9 => "Numpad9",
        Key::OEM1 => "OEM1",
        Key::OEM102 => "OEM102",
        Key::OEM2 => "OEM2",
        Key::OEM3 => "OEM3",
        Key::OEM4 => "OEM4",
        Key::OEM5 => "OEM5",
        Key::OEM6 => "OEM6",
        Key::OEM7 => "OEM7",
        Key::OEM8 => "OEM8",
        Key::OEMAttn => "OEMAttn",
        Key::OEMAuto => "OEMAuto",
        Key::OEMAx => "OEMAx",
        Key::OEMBacktab => "OEMBacktab",
        Key::OEMClear => "OEMClear",
        Key::OEMComma => "OEMComma",
        Key::OEMCopy => "OEMCopy",
        Key::OEMCusel => "OEMCusel",
        Key::OEMEnlw => "OEMEnlw",
        Key::OEMFinish => "OEMFinish",
        Key::OEMFJJisho => "OEMFJJisho",
        Key::OEMFJLoya => "OEMFJLoya",
        Key::OEMFJMasshou => "OEMFJMasshou",
        Key::OEMFJRoya => "OEMFJRoya",
        Key::OEMFJTouroku => "OEMFJTouroku",
        Key::OEMJump => "OEMJump",
        Key::OEMMinus => "OEMMinus",
        Key::OEMNECEqual => "OEMNECEqual",
        Key::OEMPA1 => "OEMPA1",
        Key::OEMPA2 => "OEMPA2",
        Key::OEMPA3 => "OEMPA3",
        Key::OEMPeriod => "OEMPeriod",
        Key::OEMPlus => "OEMPlus",
        Key::OEMReset => "OEMReset",
        Key::OEMWsctrl => "OEMWsctrl",
        Key::OptionKey => "Option",
        Key::PA1 => "PA1",
        Key::Packet => "Packet",
        Key::PageDown => "PageDown",
        Key::PageUp => "PageUp",
        Key::Pause => "Pause",
        Key::Play => "Play",
        Key::Power => "Power",
        Key::Print => "Print",
        Key::PrintScr => "PrintScr",
        Key::Processkey => "Processkey",
        Key::RButton => "RButton",
        Key::RCommand => "RCommand",
        Key::RControl => "RControl",
        Key::Redo => "Redo",
        Key::Return => "Return",
        Key::RightArrow => "RightArrow",
        Key::RMenu => "RMenu",
        Key::ROption => "ROption",
        Key::RShift => "RShift",
        Key::RWin => "RWin",
        Key::Scroll => "Scroll",
        Key::ScrollLock => "ScrollLock",
        Key::Select => "Select",
        Key::ScriptSwitch => "ScriptSwitch",
        Key::Separator => "Separator",
        Key::Shift => "Shift",
        Key::ShiftLock => "ShiftLock",
        Key::Sleep => "Sleep",
        Key::Snapshot => "Snapshot",
        Key::Space => "Space",
        Key::Subtract => "Subtract",
        Key::SysReq => "SysReq",
        Key::Tab => "Tab",
        Key::Undo => "Undo",
        Key::UpArrow => "UpArrow",
        Key::VidMirror => "VidMirror",
        Key::VolumeDown => "VolumeDown",
        Key::VolumeMute => "VolumeMute",
        Key::VolumeUp => "VolumeUp",
        Key::MicMute => "MicMute",
        Key::XButton1 => "XButton1",
        Key::XButton2 => "XButton2",
        Key::Zoom => "Zoom",
        Key::Unicode(..) => "",
        Key::Other(..) => "",
    }
}

/// The key a wire name denotes: each canonical name, and the alias `"ctrl"`
/// for `Control`.  Names not in the vocabulary denote no key.
pub open spec fn spec_key_of_name(s: Seq<char>) -> Option<Key> {
    if s.len() == 1 {
        if s == "A"@ {
            Some(Key::A)
        } else if s == "B"@ {
            Some(Key::B)
        } else if s == "C"@ {
            Some(Key::C)
        } else if s == "D"@ {
            Some(Key::D)
        } else if s == "E"@ {
            Some(Key::E)
        } else if s == "F"@ {
            Some(Key::F)
        } else if s == "G"@ {
            Some(Key::G)
        } else if s == "H"@ {
            Some(Key::H)
        } else if s == "I"@ {
            Some(Key::I)
        } else if s == "J"@ {
            Some(Key::J)
        } else if s == "K"@ {
            Some(Key::K)
        } else if s == "L"@ {
            Some(Key::L)
        } else if s == "M"@ {
            Some(Key::M)
        } else if s == "N"@ {
            Some(Key::N)
        } else if s == "O"@ {
            Some(Key::O)
        } else if s == "P"@ {
            Some(Key::P)
        } else if s == "Q"@ {
            Some(Key::Q)
        } else if s == "R"@ {
            Some(Key::R)
        } else if s == "S"@ {
            Some(Key::S)
        } else if s == "T"@ {
            Some(Key::T)
        } else if s == "U"@ {
            Some(Key::U)
        } else if s == "V"@ {
            Some(Key::V)
        } else if s == "W"@ {
            Some(Key::W)
        } else if s == "X"@ {
            Some(Key::X)
        } else if s == "Y"@ {
            Some(Key::Y)
        } else if s == "Z"@ {
            Some(Key::Z)
        } else {
            None
        }
    } else if s.len() == 2 {
        if s == "F1"@ {
            Some(Key::F1)
        } else if s == "F2"@ {
            Some(Key::F2)
        } else if s == "F3"@ {
            Some(Key::F3)
        } else if s == "F4"@ {
            Some(Key::F4)
        } else if s == "F5"@ {
            Some(Key::F5)
        } else if s == "F6"@ {
            Some(Key::F6)
        } else if s == "F7"@ {
            Some(Key::F7)
        } else if s == "F8"@ {
            Some(Key::F8)
        } else if s == "F9"@ {
            Some(Key::F9)
        } else {
            None
        }
    } else if s.len() == 3 {
        if s == "Add"@ {
            Some(Key::Add)
        } else if s == "Alt"@ {
            Some(Key::Alt)
        } else if s == "End"@ {
            Some(Key::End)
        } else if s == "F10"@ {
            Some(Key::F10)
        } else if s == "F11"@ {
            Some(Key::F11)
        } else if s == "F12"@ {
            Some(Key::F12)
        } else if s == "F13"@ {
            Some(Key::F13)
        } else if s == "F14"@ {
            Some(Key::F14)
        } else if s == "F15"@ {
            Some(Key::F15)
        } else if s == "F16"@ {
            Some(Key::F16)
        } else if s == "F17"@ {
            Some(Key::F17)
        } else if s == "F18"@ {
            Some(Key::F18)
        } else if s == "F19"@ {
            Some(Key::F19)
        } else if s == "F20"@ {
            Some(Key::F20)
        } else if s == "F21"@ {
            Some(Key::F21)
        } else if s == "F22"@ {
            Some(Key::F22)
        } else if s == "F23"@ {
            Some(Key::F23)
        } else if s == "F24"@ {
            Some(Key::F24)
        } else if s == "F25"@ {
            Some(Key::F25)
        } else if s == "F26"@ {
            Some(Key::F26)
        } else if s == "F27"@ {
            Some(Key::F27)
        } else if s == "F28"@ {
            Some(Key::F28)
        } else if s == "F29"@ {
            Some(Key::F29)
        } else if s == "F30"@ {
            Some(Key::F30)
        } else if s == "F31"@ {
            Some(Key::F31)
        } else if s == "F32"@ {
            Some(Key::F32)
        } else if s == "F33"@ {
            Some(Key::F33)
        } else if s == "F34"@ {
            Some(Key::F34)
        } else if s == "F35"@ {
            Some(Key::F35)
        } else if s == "PA1"@ {
            Some(Key::PA1)
        } else if s == "Tab"@ {
            Some(Key::Tab)
        } else {
            None
        }
    } else if s.len() == 4 {
        if s == "Num0"@ {
            Some(Key::Num0)
        } else if s == "Num1"@ {
            Some(Key::Num1)
        } else if s == "Num2"@ {
            Some(Key::Num2)
        } else if s == "Num3"@ {
            Some(Key::Num3)
        } else if s == "Num4"@ {
            Some(Key::Num4)
        } else if s == "Num5"@ {
            Some(Key::Num5)
        } else if s == "Num6"@ {
            Some(Key::Num6)
        } else if s == "Num7"@ {
            Some(Key::Num7)
        } else if s == "Num8"@ {
            Some(Key::Num8)
        } else if s == "Num9"@ {
            Some(Key::Num9)
        } else if s == "Apps"@ {
            Some(Key::Apps)
        } else if s == "Attn"@ {
            Some(Key::Attn)
        } else if s == "Find"@ {
            Some(Key::Find)
        } else if s == "Help"@ {
            Some(Key::Help)
        } else if s == "Home"@ {
            Some(Key::Home)
        } else if s == "Kana"@ {
            Some(Key::Kana)
        } else if s == "LWin"@ {
            Some(Key::LWin)
        } else if s == "Meta"@ {
            Some(Key::Meta)
        } else if s == "None"@ {
            Some(Key::NoneKey)
        } else if s == "OEM1"@ {
            Some(Key::OEM1)
        } else if s == "OEM2"@ {
            Some(Key::OEM2)
        } else if s == "OEM3"@ {
            Some(Key::OEM3)
        } else if s == "OEM4"@ {
            Some(Key::OEM4)
        } else if s == "OEM5"@ {
            Some(Key::OEM5)
        } else if s == "OEM6"@ {
            Some(Key::OEM6)
        } else if s == "OEM7"@ {
            Some(Key::OEM7)
        } else if s == "OEM8"@ {
            Some(Key::OEM8)
        } else if s == "Play"@ {
            Some(Key::Play)
        } else if s == "Redo"@ {
            Some(Key::Redo)
        } else if s == "RWin"@ {
            Some(Key::RWin)
        } else if s == "Undo"@ {
            Some(Key::Undo)
        } else if s == "Zoom"@ {
            Some(Key::Zoom)
        } else if s == "ctrl"@ {
            Some(Key::Control)
        } else {
            None
        }
    } else if s.len() == 5 {
        if s == "Break"@ {
            Some(Key::Break)
        } else if s == "Begin"@ {
            Some(Key::Begin)
        } else if s == "Clear"@ {
            Some(Key::Clear)
        } else if s == "Crsel"@ {
            Some(Key::Crsel)
        } else if s == "Eject"@ {
            Some(Key::Eject)
        } else if s == "Ereof"@ {
            Some(Key::Ereof)
        } else if s == "Exsel"@ {
            Some(Key::Exsel)
        } else if s == "Final"@ {
            Some(Key::Final)
        } else if s == "Hanja"@ {
            Some(Key::Hanja)
        } else if s == "Ico00"@ {
            Some(Key::Ico00)
        } else if s == "IMEOn"@ {
            Some(Key::IMEOn)
        } else if s == "Junja"@ {
            Some(Key::Junja)
        } else if s == "Kanji"@ {
            Some(Key::Kanji)
        } else if s == "LMenu"@ {
            Some(Key::LMenu)
        } else if s == "OEMAx"@ {
            Some(Key::OEMAx)
        } else if s == "Pause"@ {
            Some(Key::Pause)
        } else if s == "Power"@ {
            Some(Key::Power)
        } else if s == "Print"@ {
            Some(Key::Print)
        } else if s == "RMenu"@ {
            Some(Key::RMenu)
        } else if s == "Shift"@ {
            Some(Key::Shift)
        } else if s == "Sleep"@ {
            Some(Key::Sleep)
        } else if s == "Space"@ {
            Some(Key::Space)
        } else {
            None
        }
    } else if s.len() == 6 {
        if s == "AbntC1"@ {
            Some(Key::AbntC1)
        } else if s == "AbntC2"@ {
            Some(Key::AbntC2)
        } else if s == "Accept"@ {
            Some(Key::Accept)
        } else if s == "Cancel"@ {
            Some(Key::Cancel)
        } else if s == "Delete"@ {
            Some(Key::Delete)
        } else if s == "Divide"@ {
            Some(Key::Divide)
        } else if s == "Escape"@ {
            Some(Key::Escape)
        } else if s == "Hangul"@ {
            Some(Key::Hangul)
        } else if s == "IMEOff"@ {
            Some(Key::IMEOff)
        } else if s == "Insert"@ {
            Some(Key::Insert)
        } else if s == "LShift"@ {
            Some(Key::LShift)
        } else if s == "NoName"@ {
            Some(Key::NoName)
        } else if s == "OEM102"@ {
            Some(Key::OEM102)
        } else if s == "OEMPA1"@ {
            Some(Key::OEMPA1)
        } else if s == "OEMPA2"@ {
            Some(Key::OEMPA2)
        } else if s == "OEMPA3"@ {
            Some(Key::OEMPA3)
        } else if s == "Option"@ {
            Some(Key::OptionKey)
        } else if s == "Packet"@ {
            Some(Key::Packet)
        } else if s == "PageUp"@ {
            Some(Key::PageUp)
        } else if s == "Return"@ {
            Some(Key::Return)
        } else if s == "RShift"@ {
            Some(Key::RShift)
        } else if s == "Scroll"@ {
            Some(Key::Scroll)
        } else if s == "Select"@ {
            Some(Key::Select)
        } else if s == "SysReq"@ {
            Some(Key::SysReq)
        } else {
            None
        }
    } else if s.len() == 7 {
        if s == "Control"@ {
            Some(Key::Control)
        } else if s == "Convert"@ {
            Some(Key::Convert)
        } else if s == "Decimal"@ {
            Some(Key::Decimal)
        } else if s == "Execute"@ {
            Some(Key::Execute)
        } else if s == "Hangeul"@ {
            Some(Key::Hangeul)
        } else if s == "IcoHelp"@ {
            Some(Key::IcoHelp)
        } else if s == "LButton"@ {
            Some(Key::LButton)
        } else if s == "MButton"@ {
            Some(Key::MButton)
        } else if s == "Numlock"@ {
            Some(Key::Numlock)
        } else if s == "Numpad0"@ {
            Some(Key::Numpad0)
        } else if s == "Numpad1"@ {
            Some(Key::Numpad1)
        } else if s == "Numpad2"@ {
            Some(Key::Numpad2)
        } else if s == "Numpad3"@ {
            Some(Key::Numpad3)
        } else if s == "Numpad4"@ {
            Some(Key::Numpad4)
        } else if s == "Numpad5"@ {
            Some(Key::Numpad5)
        } else if s == "Numpad6"@ {
            Some(Key::Numpad6)
        } else if s == "Numpad7"@ {
            Some(Key::Numpad7)
        } else if s == "Numpad8"@ {
            Some(Key::Numpad8)
        } else if s == "Numpad9"@ {
            Some(Key::Numpad9)
        } else if s == "OEMAttn"@ {
            Some(Key::OEMAttn)
        } else if s == "OEMAuto"@ {
            Some(Key::OEMAuto)
        } else if s == "OEMCopy"@ {
            Some(Key::OEMCopy)
        } else if s == "OEMEnlw"@ {
            Some(Key::OEMEnlw)
        } else if s == "OEMJump"@ {
            Some(Key::OEMJump)
        } else if s == "OEMPlus"@ {
            Some(Key::OEMPlus)
        } else if s == "RButton"@ {
            Some(Key::RButton)
        } else if s == "ROption"@ {
            Some(Key::ROption)
        } else if s == "UpArrow"@ {
            Some(Key::UpArrow)
        } else if s == "MicMute"@ {
            Some(Key::MicMute)
        } else {
            None
        }
    } else if s.len() == 8 {
        if s == "CapsLock"@ {
            Some(Key::CapsLock)
        } else if s == "DBERoman"@ {
            Some(Key::DBERoman)
        } else if s == "DBESChar"@ {
            Some(Key::DBESChar)
        } else if s == "Function"@ {
            Some(Key::Function)
        } else if s == "GamepadA"@ {
            Some(Key::GamepadA)
        } else if s == "GamepadB"@ {
            Some(Key::GamepadB)
        } else if s == "GamepadX"@ {
            Some(Key::GamepadX)
        } else if s == "GamepadY"@ {
            Some(Key::GamepadY)
        } else if s == "IcoClear"@ {
            Some(Key::IcoClear)
        } else if s == "LControl"@ {
            Some(Key::LControl)
        } else if s == "Linefeed"@ {
            Some(Key::Linefeed)
        } else if s == "Multiply"@ {
            Some(Key::Multiply)
        } else if s == "OEMClear"@ {
            Some(Key::OEMClear)
        } else if s == "OEMComma"@ {
            Some(Key::OEMComma)
        } else if s == "OEMCusel"@ {
            Some(Key::OEMCusel)
        } else if s == "OEMMinus"@ {
            Some(Key::OEMMinus)
        } else if s == "OEMReset"@ {
            Some(Key::OEMReset)
        } else if s == "PageDown"@ {
            Some(Key::PageDown)
        } else if s == "PrintScr"@ {
            Some(Key::PrintScr)
        } else if s == "RCommand"@ {
            Some(Key::RCommand)
        } else if s == "RControl"@ {
            Some(Key::RControl)
        } else if s == "Snapshot"@ {
            Some(Key::Snapshot)
        } else if s == "Subtract"@ {
            Some(Key::Subtract)
        } else if s == "VolumeUp"@ {
            Some(Key::VolumeUp)
        } else if s == "XButton1"@ {
            Some(Key::XButton1)
        } else if s == "XButton2"@ {
            Some(Key::XButton2)
        } else {
            None
        }
    } else if s.len() == 9 {
        if s == "Backspace"@ {
            Some(Key::Backspace)
        } else if s == "DownArrow"@ {
            Some(Key::DownArrow)
        } else if s == "Launchpad"@ {
            Some(Key::Launchpad)
        } else if s == "LeftArrow"@ {
            Some(Key::LeftArrow)
        } else if s == "MediaFast"@ {
            Some(Key::MediaFast)
        } else if s == "MediaStop"@ {
            Some(Key::MediaStop)
        } else if s == "OEMFinish"@ {
            Some(Key::OEMFinish)
        } else if s == "OEMFJLoya"@ {
            Some(Key::OEMFJLoya)
        } else if s == "OEMFJRoya"@ {
            Some(Key::OEMFJRoya)
        } else if s == "OEMPeriod"@ {
            Some(Key::OEMPeriod)
        } else if s == "OEMWsctrl"@ {
            Some(Key::OEMWsctrl)
        } else if s == "Separator"@ {
            Some(Key::Separator)
        } else if s == "ShiftLock"@ {
            Some(Key::ShiftLock)
        } else if s == "VidMirror"@ {
            Some(Key::VidMirror)
        } else {
            None
        }
    } else if s.len() == 10 {
        if s == "ContrastUp"@ {
            Some(Key::ContrastUp)
        } else if s == "DBENoRoman"@ {
            Some(Key::DBENoRoman)
        } else if s == "LaunchApp1"@ {
            Some(Key::LaunchApp1)
        } else if s == "LaunchApp2"@ {
            Some(Key::LaunchApp2)
        } else if s == "LaunchMail"@ {
            Some(Key::LaunchMail)
        } else if s == "ModeChange"@ {
            Some(Key::ModeChange)
        } else if s == "NonConvert"@ {
            Some(Key::NonConvert)
        } else if s == "OEMBacktab"@ {
            Some(Key::OEMBacktab)
        } else if s == "OEMFJJisho"@ {
            Some(Key::OEMFJJisho)
        } else if s == "Processkey"@ {
            Some(Key::Processkey)
        } else if s == "RightArrow"@ {
            Some(Key::RightArrow)
        } else if s == "ScrollLock"@ {
            Some(Key::ScrollLock)
        } else if s == "VolumeDown"@ {
            Some(Key::VolumeDown)
        } else if s == "VolumeMute"@ {
            Some(Key::VolumeMute)
        } else {
            None
        }
    } else if s.len() == 11 {
        if s == "BrowserBack"@ {
            Some(Key::BrowserBack)
        } else if s == "BrowserHome"@ {
            Some(Key::BrowserHome)
        } else if s == "BrowserStop"@ {
            Some(Key::BrowserStop)
        } else if s == "DBEHiragana"@ {
            Some(Key::DBEHiragana)
        } else if s == "DBEKatakana"@ {
            Some(Key::DBEKatakana)
        } else if s == "DBESBCSChar"@ {
            Some(Key::DBESBCSChar)
        } else if s == "GamepadMenu"@ {
            Some(Key::GamepadMenu)
        } else if s == "GamepadView"@ {
            Some(Key::GamepadView)
        } else if s == "LaunchPanel"@ {
            Some(Key::LaunchPanel)
        } else if s == "MediaRewind"@ {
            Some(Key::MediaRewind)
        } else if s == "OEMNECEqual"@ {
            Some(Key::OEMNECEqual)
        } else {
            None
        }
    } else if s.len() == 12 {
        if s == "BrightnessUp"@ {
            Some(Key::BrightnessUp)
        } else if s == "ContrastDown"@ {
            Some(Key::ContrastDown)
        } else if s == "DBECodeinput"@ {
            Some(Key::DBECodeinput)
        } else if s == "NavigationUp"@ {
            Some(Key::NavigationUp)
        } else if s == "OEMFJMasshou"@ {
            Some(Key::OEMFJMasshou)
        } else if s == "OEMFJTouroku"@ {
            Some(Key::OEMFJTouroku)
        } else if s == "ScriptSwitch"@ {
            Some(Key::ScriptSwitch)
        } else {
            None
        }
    } else if s.len() == 13 {
        if s == "BrowserSearch"@ {
            Some(Key::BrowserSearch)
        } else if s == "GamepadDPadUp"@ {
            Some(Key::GamepadDPadUp)
        } else {
            None
        }
    } else if s.len() == 14 {
        if s == "BrightnessDown"@ {
            Some(Key::BrightnessDown)
        } else if s == "BrowserForward"@ {
            Some(Key::BrowserForward)
        } else if s == "BrowserRefresh"@ {
            Some(Key::BrowserRefresh)
        } else if s == "DBEFlushString"@ {
            Some(Key::DBEFlushString)
        } else if s == "DBENoCodepoint"@ {
            Some(Key::DBENoCodepoint)
        } else if s == "IlluminationUp"@ {
            Some(Key::IlluminationUp)
        } else if s == "MediaNextTrack"@ {
            Some(Key::MediaNextTrack)
        } else if s == "MediaPlayPause"@ {
            Some(Key::MediaPlayPause)
        } else if s == "MediaPrevTrack"@ {
            Some(Key::MediaPrevTrack)
        } else if s == "MissionControl"@ {
            Some(Key::MissionControl)
        } else if s == "NavigationDown"@ {
            Some(Key::NavigationDown)
        } else if s == "NavigationLeft"@ {
            Some(Key::NavigationLeft)
        } else if s == "NavigationMenu"@ {
            Some(Key::NavigationMenu)
        } else if s == "NavigationView"@ {
            Some(Key::NavigationView)
        } else {
            None
        }
    } else if s.len() == 15 {
        if s == "DBEAlphanumeric"@ {
            Some(Key::DBEAlphanumeric)
        } else if s == "GamepadDPadDown"@ {
            Some(Key::GamepadDPadDown)
        } else if s == "GamepadDPadLeft"@ {
            Some(Key::GamepadDPadLeft)
        } else if s == "NavigationRight"@ {
            Some(Key::NavigationRight)
        } else {
            None
        }
    } else if s.len() == 16 {
        if s == "BrowserFavorites"@ {
            Some(Key::BrowserFavorites)
        } else if s == "GamepadDPadRight"@ {
            Some(Key::GamepadDPadRight)
        } else if s == "IlluminationDown"@ {
            Some(Key::IlluminationDown)
        } else if s == "NavigationAccept"@ {
            Some(Key::NavigationAccept)
        } else if s == "NavigationCancel"@ {
            Some(Key::NavigationCancel)
        } else {
            None
        }
    } else if s.len() == 17 {
        if s == "LaunchMediaSelect"@ {
            Some(Key::LaunchMediaSelect)
        } else {
            None
        }
    } else if s.len() == 18 {
        if s == "DBEDetermineString"@ {
            Some(Key::DBEDetermineString)
        } else if s == "GamepadLeftTrigger"@ {
            Some(Key::GamepadLeftTrigger)
        } else if s == "IlluminationToggle"@ {
            Some(Key::IlluminationToggle)
        } else {
            None
        }
    } else if s.len() == 19 {
        if s == "GamepadLeftShoulder"@ {
            Some(Key::GamepadLeftShoulder)
        } else if s == "GamepadRightTrigger"@ {
            Some(Key::GamepadRightTrigger)
        } else {
            None
        }
    } else if s.len() == 20 {
        if s == "GamepadRightShoulder"@ {
            Some(Key::GamepadRightShoulder)
        } else {
            None
        }
    } else if s.len() == 21 {
        if s == "DBEEnterIMEConfigMode"@ {
            Some(Key::DBEEnterIMEConfigMode)
        } else {
            None
        }
    } else if s.len() == 23 {
        if s == "GamepadLeftThumbstickUp"@ {
            Some(Key::GamepadLeftThumbstickUp)
        } else {
            None
        }
    } else if s.len() == 24 {
        if s == "DBEEnterWordRegisterMode"@ {
            Some(Key::DBEEnterWordRegisterMode)
        } else if s == "GamepadRightThumbstickUp"@ {
            Some(Key::GamepadRightThumbstickUp)
        } else {
            None
        }
    } else if s.len() == 25 {
        if s == "DBEEnterDLGConversionMode"@ {
            Some(Key::DBEEnterDLGConversionMode)
        } else if s == "GamepadLeftThumbstickDown"@ {
            Some(Key::GamepadLeftThumbstickDown)
        } else if s == "GamepadLeftThumbstickLeft"@ {
            Some(Key::GamepadLeftThumbstickLeft)
        } else {
            None
        }
    } else if s.len() == 26 {
        if s == "GamepadLeftThumbstickRight"@ {
            Some(Key::GamepadLeftThumbstickRight)
        } else if s == "GamepadRightThumbstickDown"@ {
            Some(Key::GamepadRightThumbstickDown)
        } else if s == "GamepadRightThumbstickLeft"@ {
            Some(Key::GamepadRightThumbstickLeft)
        } else {
            None
        }
    } else if s.len() == 27 {
        if s == "GamepadLeftThumbstickButton"@ {
            Some(Key::GamepadLeftThumbstickButton)
        } else if s == "GamepadRightThumbstickRight"@ {
            Some(Key::GamepadRightThumbstickRight)
        } else {
            None
        }
    } else if s.len() == 28 {
        if s == "GamepadRightThumbstickButton"@ {
            Some(Key::GamepadRightThumbstickButton)
        } else {
            None
        }
    } else {
        None
    }
}

/// The key a wire name denotes; see [`spec_key_of_name`].
pub fn key_of_name(s: &[char]) -> (r: Option<Key>)
    ensures
        r == spec_key_of_name(s@),
{
    if s.len() == 1 {
        if chars_eq_lit(s, "A") {
            Some(Key::A)
        } else if chars_eq_lit(s, "B") {
            Some(Key::B)
        } else if chars_eq_lit(s, "C") {
            Some(Key::C)
        } else if chars_eq_lit(s, "D") {
            Some(Key::D)
        } else if chars_eq_lit(s, "E") {
            Some(Key::E)
        } else if chars_eq_lit(s, "F") {
            Some(Key::F)
        } else if chars_eq_lit(s, "G") {
            Some(Key::G)
        } else if chars_eq_lit(s, "H") {
            Some(Key::H)
        } else if chars_eq_lit(s, "I") {
            Some(Key::I)
        } else if chars_eq_lit(s, "J") {
            Some(Key::J)
        } else if chars_eq_lit(s, "K") {
            Some(Key::K)
        } else if chars_eq_lit(s, "L") {
            Some(Key::L)
        } else if chars_eq_lit(s, "M") {
            Some(Key::M)
        } else if chars_eq_lit(s, "N") {
            Some(Key::N)
        } else if chars_eq_lit(s, "O") {
            Some(Key::O)
        } else if chars_eq_lit(s, "P") {
            Some(Key::P)
        } else if chars_eq_lit(s, "Q") {
            Some(Key::Q)
        } else if chars_eq_lit(s, "R") {
            Some(Key::R)
        } else if chars_eq_lit(s, "S") {
            Some(Key::S)
        } else if chars_eq_lit(s, "T") {
            Some(Key::T)
        } else if chars_eq_lit(s, "U") {
            Some(Key::U)
        } else if chars_eq_lit(s, "V") {
            Some(Key::V)
        } else if chars_eq_lit(s, "W") {
            Some(Key::W)
        } else if chars_eq_lit(s, "X") {
            Some(Key::X)
        } else if chars_eq_lit(s, "Y") {
            Some(Key::Y)
        } else if chars_eq_lit(s, "Z") {
            Some(Key::Z)
        } else {
            None
        }
    } else if s.len() == 2 {
        if chars_eq_lit(s, "F1") {
            Some(Key::F1)
        } else if chars_eq_lit(s, "F2") {
            Some(Key::F2)
        } else if chars_eq_lit(s, "F3") {
            Some(Key::F3)
        } else if chars_eq_lit(s, "F4") {
            Some(Key::F4)
        } else if chars_eq_lit(s, "F5") {
            Some(Key::F5)
        } else if chars_eq_lit(s, "F6") {
            Some(Key::F6)
        } else if chars_eq_lit(s, "F7") {
            Some(Key::F7)
        } else if chars_eq_lit(s, "F8") {
            Some(Key::F8)
        } else if chars_eq_lit(s, "F9") {
            Some(Key::F9)
        } else {
            None
        }
    } else if s.len() == 3 {
        if chars_eq_lit(s, "Add") {
            Some(Key::Add)
        } else if chars_eq_lit(s, "Alt") {
            Some(Key::Alt)
        } else if chars_eq_lit(s, "End") {
            Some(Key::End)
        } else if chars_eq_lit(s, "F10") {
            Some(Key::F10)
        } else if chars_eq_lit(s, "F11") {
            Some(Key::F11)
        } else if chars_eq_lit(s, "F12") {
            Some(Key::F12)
        } else if chars_eq_lit(s, "F13") {
            Some(Key::F13)
        } else if chars_eq_lit(s, "F14") {
            Some(Key::F14)
        } else if chars_eq_lit(s, "F15") {
            Some(Key::F15)
        } else if chars_eq_lit(s, "F16") {
            Some(Key::F16)
        } else if chars_eq_lit(s, "F17") {
            Some(Key::F17)
        } else if chars_eq_lit(s, "F18") {
            Some(Key::F18)
        } else if chars_eq_lit(s, "F19") {
            Some(Key::F19)
        } else if chars_eq_lit(s, "F20") {
            Some(Key::F20)
        } else if chars_eq_lit(s, "F21") {
            Some(Key::F21)
        } else if chars_eq_lit(s, "F22") {
            Some(Key::F22)
        } else if chars_eq_lit(s, "F23") {
            Some(Key::F23)
        } else if chars_eq_lit(s, "F24") {
            Some(Key::F24)
        } else if chars_eq_lit(s, "F25") {
            Some(Key::F25)
        } else if chars_eq_lit(s, "F26") {
            Some(Key::F26)
        } else if chars_eq_lit(s, "F27") {
            Some(Key::F27)
        } else if chars_eq_lit(s, "F28") {
            Some(Key::F28)
        } else if chars_eq_lit(s, "F29") {
            Some(Key::F29)
        } else if chars_eq_lit(s, "F30") {
            Some(Key::F30)
        } else if chars_eq_lit(s, "F31") {
            Some(Key::F31)
        } else if chars_eq_lit(s, "F32") {
            Some(Key::F32)
        } else if chars_eq_lit(s, "F33") {
            Some(Key::F33)
        } else if chars_eq_lit(s, "F34") {
            Some(Key::F34)
        } else if chars_eq_lit(s, "F35") {
            Some(Key::F35)
        } else if chars_eq_lit(s, "PA1") {
            Some(Key::PA1)
        } else if chars_eq_lit(s, "Tab") {
            Some(Key::Tab)
        } else {
            None
        }
    } else if s.len() == 4 {
        if chars_eq_lit(s, "Num0") {
            Some(Key::Num0)
        } else if chars_eq_lit(s, "Num1") {
            Some(Key::Num1)
        } else if chars_eq_lit(s, "Num2") {
            Some(Key::Num2)
        } else if chars_eq_lit(s, "Num3") {
            Some(Key::Num3)
        } else if chars_eq_lit(s, "Num4") {
            Some(Key::Num4)
        } else if chars_eq_lit(s, "Num5") {
            Some(Key::Num5)
        } else if chars_eq_lit(s, "Num6") {
            Some(Key::Num6)
        } else if chars_eq_lit(s, "Num7") {
            Some(Key::Num7)
        } else if chars_eq_lit(s, "Num8") {
            Some(Key::Num8)
        } else if chars_eq_lit(s, "Num9") {
            Some(Key::Num9)
        } else if chars_eq_lit(s, "Apps") {
            Some(Key::Apps)
        } else if chars_eq_lit(s, "Attn") {
            Some(Key::Attn)
        } else if chars_eq_lit(s, "Find") {
            Some(Key::Find)
        } else if chars_eq_lit(s, "Help") {
            Some(Key::Help)
        } else if chars_eq_lit(s, "Home") {
            Some(Key::Home)
        } else if chars_eq_lit(s, "Kana") {
            Some(Key::Kana)
        } else if chars_eq_lit(s, "LWin") {
            Some(Key::LWin)
        } else if chars_eq_lit(s, "Meta") {
            Some(Key::Meta)
        } else if chars_eq_lit(s, "None") {
            Some(Key::NoneKey)
        } else if chars_eq_lit(s, "OEM1") {
            Some(Key::OEM1)
        } else if chars_eq_lit(s, "OEM2") {
            Some(Key::OEM2)
        } else if chars_eq_lit(s, "OEM3") {
            Some(Key::OEM3)
        } else if chars_eq_lit(s, "OEM4") {
            Some(Key::OEM4)
        } else if chars_eq_lit(s, "OEM5") {
            Some(Key::OEM5)
        } else if chars_eq_lit(s, "OEM6") {
            Some(Key::OEM6)
        } else if chars_eq_lit(s, "OEM7") {
            Some(Key::OEM7)
        } else if chars_eq_lit(s, "OEM8") {
            Some(Key::OEM8)
        } else if chars_eq_lit(s, "Play") {
            Some(Key::Play)
        } else if chars_eq_lit(s, "Redo") {
            Some(Key::Redo)
        } else if chars_eq_lit(s, "RWin") {
            Some(Key::RWin)
        } else if chars_eq_lit(s, "Undo") {
            Some(Key::Undo)
        } else if chars_eq_lit(s, "Zoom") {
            Some(Key::Zoom)
        } else if chars_eq_lit(s, "ctrl") {
            Some(Key::Control)
        } else {
            None
        }
    } else if s.len() == 5 {
        if chars_eq_lit(s, "Break") {
            Some(Key::Break)
        } else if chars_eq_lit(s, "Begin") {
            Some(Key::Begin)
        } else if chars_eq_lit(s, "Clear") {
            Some(Key::Clear)
        } else if chars_eq_lit(s, "Crsel") {
            Some(Key::Crsel)
        } else if chars_eq_lit(s, "Eject") {
            Some(Key::Eject)
        } else if chars_eq_lit(s, "Ereof") {
            Some(Key::Ereof)
        } else if chars_eq_lit(s, "Exsel") {
            Some(Key::Exsel)
        } else if chars_eq_lit(s, "Final") {
            Some(Key::Final)
        } else if chars_eq_lit(s, "Hanja") {
            Some(Key::Hanja)
        } else if chars_eq_lit(s, "Ico00") {
            Some(Key::Ico00)
        } else if chars_eq_lit(s, "IMEOn") {
            Some(Key::IMEOn)
        } else if chars_eq_lit(s, "Junja") {
            Some(Key::Junja)
        } else if chars_eq_lit(s, "Kanji") {
            Some(Key::Kanji)
        } else if chars_eq_lit(s, "LMenu") {
            Some(Key::LMenu)
        } else if chars_eq_lit(s, "OEMAx") {
            Some(Key::OEMAx)
        } else if chars_eq_lit(s, "Pause") {
            Some(Key::Pause)
        } else if chars_eq_lit(s, "Power") {
            Some(Key::Power)
        } else if chars_eq_lit(s, "Print") {
            Some(Key::Print)
        } else if chars_eq_lit(s, "RMenu") {
            Some(Key::RMenu)
        } else if chars_eq_lit(s, "Shift") {
            Some(Key::Shift)
        } else if chars_eq_lit(s, "Sleep") {
            Some(Key::Sleep)
        } else if chars_eq_lit(s, "Space") {
            Some(Key::Space)
        } else {
            None
        }
    } else if s.len() == 6 {
        if chars_eq_lit(s, "AbntC1") {
            Some(Key::AbntC1)
        } else if chars_eq_lit(s, "AbntC2") {
            Some(Key::AbntC2)
        } else if chars_eq_lit(s, "Accept") {
            Some(Key::Accept)
        } else if chars_eq_lit(s, "Cancel") {
            Some(Key::Cancel)
        } else if chars_eq_lit(s, "Delete") {
            Some(Key::Delete)
        } else if chars_eq_lit(s, "Divide") {
            Some(Key::Divide)
        } else if chars_eq_lit(s, "Escape") {
            Some(Key::Escape)
        } else if chars_eq_lit(s, "Hangul") {
            Some(Key::Hangul)
        } else if chars_eq_lit(s, "IMEOff") {
            Some(Key::IMEOff)
        } else if chars_eq_lit(s, "Insert") {
            Some(Key::Insert)
        } else if chars_eq_lit(s, "LShift") {
            Some(Key::LShift)
        } else if chars_eq_lit(s, "NoName") {
            Some(Key::NoName)
        } else if chars_eq_lit(s, "OEM102") {
            Some(Key::OEM102)
        } else if chars_eq_lit(s, "OEMPA1") {
            Some(Key::OEMPA1)
        } else if chars_eq_lit(s, "OEMPA2") {
            Some(Key::OEMPA2)
        } else if chars_eq_lit(s, "OEMPA3") {
            Some(Key::OEMPA3)
        } else if chars_eq_lit(s, "Option") {
            Some(Key::OptionKey)
        } else if chars_eq_lit(s, "Packet") {
            Some(Key::Packet)
        } else if chars_eq_lit(s, "PageUp") {
            Some(Key::PageUp)
        } else if chars_eq_lit(s, "Return") {
            Some(Key::Return)
        } else if chars_eq_lit(s, "RShift") {
            Some(Key::RShift)
        } else if chars_eq_lit(s, "Scroll") {
            Some(Key::Scroll)
        } else if chars_eq_lit(s, "Select") {
            Some(Key::Select)
        } else if chars_eq_lit(s, "SysReq") {
            Some(Key::SysReq)
        } else {
            None
        }
    } else if s.len() == 7 {
        if chars_eq_lit(s, "Control") {
            Some(Key::Control)
        } else if chars_eq_lit(s, "Convert") {
            Some(Key::Convert)
        } else if chars_eq_lit(s, "Decimal") {
            Some(Key::Decimal)
        } else if chars_eq_lit(s, "Execute") {
            Some(Key::Execute)
        } else if chars_eq_lit(s, "Hangeul") {
            Some(Key::Hangeul)
        } else if chars_eq_lit(s, "IcoHelp") {
            Some(Key::IcoHelp)
        } else if chars_eq_lit(s, "LButton") {
            Some(Key::LButton)
        } else if chars_eq_lit(s, "MButton") {
            Some(Key::MButton)
        } else if chars_eq_lit(s, "Numlock") {
            Some(Key::Numlock)
        } else if chars_eq_lit(s, "Numpad0") {
            Some(Key::Numpad0)
        } else if chars_eq_lit(s, "Numpad1") {
            Some(Key::Numpad1)
        } else if chars_eq_lit(s, "Numpad2") {
            Some(Key::Numpad2)
        } else if chars_eq_lit(s, "Numpad3") {
            Some(Key::Numpad3)
        } else if chars_eq_lit(s, "Numpad4") {
            Some(Key::Numpad4)
        } else if chars_eq_lit(s, "Numpad5") {
            Some(Key::Numpad5)
        } else if chars_eq_lit(s, "Numpad6") {
            Some(Key::Numpad6)
        } else if chars_eq_lit(s, "Numpad7") {
            Some(Key::Numpad7)
        } else if chars_eq_lit(s, "Numpad8") {
            Some(Key::Numpad8)
        } else if chars_eq_lit(s, "Numpad9") {
            Some(Key::Numpad9)
        } else if chars_eq_lit(s, "OEMAttn") {
            Some(Key::OEMAttn)
        } else if chars_eq_lit(s, "OEMAuto") {
            Some(Key::OEMAuto)
        } else if chars_eq_lit(s, "OEMCopy") {
            Some(Key::OEMCopy)
        } else if chars_eq_lit(s, "OEMEnlw") {
            Some(Key::OEMEnlw)
        } else if chars_eq_lit(s, "OEMJump") {
            Some(Key::OEMJump)
        } else if chars_eq_lit(s, "OEMPlus") {
            Some(Key::OEMPlus)
        } else if chars_eq_lit(s, "RButton") {
            Some(Key::RButton)
        } else if chars_eq_lit(s, "ROption") {
            Some(Key::ROption)
        } else if chars_eq_lit(s, "UpArrow") {
            Some(Key::UpArrow)
        } else if chars_eq_lit(s, "MicMute") {
            Some(Key::MicMute)
        } else {
            None
        }
    } else if s.len() == 8 {
        if chars_eq_lit(s, "CapsLock") {
            Some(Key::CapsLock)
        } else if chars_eq_lit(s, "DBERoman") {
            Some(Key::DBERoman)
        } else if chars_eq_lit(s, "DBESChar") {
            Some(Key::DBESChar)
        } else if chars_eq_lit(s, "Function") {
            Some(Key::Function)
        } else if chars_eq_lit(s, "GamepadA") {
            Some(Key::GamepadA)
        } else if chars_eq_lit(s, "GamepadB") {
            Some(Key::GamepadB)
        } else if chars_eq_lit(s, "GamepadX") {
            Some(Key::GamepadX)
        } else if chars_eq_lit(s, "GamepadY") {
            Some(Key::GamepadY)
        } else if chars_eq_lit(s, "IcoClear") {
            Some(Key::IcoClear)
        } else if chars_eq_lit(s, "LControl") {
            Some(Key::LControl)
        } else if chars_eq_lit(s, "Linefeed") {
            Some(Key::Linefeed)
        } else if chars_eq_lit(s, "Multiply") {
            Some(Key::Multiply)
        } else if chars_eq_lit(s, "OEMClear") {
            Some(Key::OEMClear)
        } else if chars_eq_lit(s, "OEMComma") {
            Some(Key::OEMComma)
        } else if chars_eq_lit(s, "OEMCusel") {
            Some(Key::OEMCusel)
        } else if chars_eq_lit(s, "OEMMinus") {
            Some(Key::OEMMinus)
        } else if chars_eq_lit(s, "OEMReset") {
            Some(Key::OEMReset)
        } else if chars_eq_lit(s, "PageDown") {
            Some(Key::PageDown)
        } else if chars_eq_lit(s, "PrintScr") {
            Some(Key::PrintScr)
        } else if chars_eq_lit(s, "RCommand") {
            Some(Key::RCommand)
        } else if chars_eq_lit(s, "RControl") {
            Some(Key::RControl)
        } else if chars_eq_lit(s, "Snapshot") {
            Some(Key::Snapshot)
        } else if chars_eq_lit(s, "Subtract") {
            Some(Key::Subtract)
        } else if chars_eq_lit(s, "VolumeUp") {
            Some(Key::VolumeUp)
        } else if chars_eq_lit(s, "XButton1") {
            Some(Key::XButton1)
        } else if chars_eq_lit(s, "XButton2") {
            Some(Key::XButton2)
        } else {
            None
        }
    } else if s.len() == 9 {
        if chars_eq_lit(s, "Backspace") {
            Some(Key::Backspace)
        } else if chars_eq_lit(s, "DownArrow") {
            Some(Key::DownArrow)
        } else if chars_eq_lit(s, "Launchpad") {
            Some(Key::Launchpad)
        } else if chars_eq_lit(s, "LeftArrow") {
            Some(Key::LeftArrow)
        } else if chars_eq_lit(s, "MediaFast") {
            Some(Key::MediaFast)
        } else if chars_eq_lit(s, "MediaStop") {
            Some(Key::MediaStop)
        } else if chars_eq_lit(s, "OEMFinish") {
            Some(Key::OEMFinish)
        } else if chars_eq_lit(s, "OEMFJLoya") {
            Some(Key::OEMFJLoya)
        } else if chars_eq_lit(s, "OEMFJRoya") {
            Some(Key::OEMFJRoya)
        } else if chars_eq_lit(s, "OEMPeriod") {
            Some(Key::OEMPeriod)
        } else if chars_eq_lit(s, "OEMWsctrl") {
            Some(Key::OEMWsctrl)
        } else if chars_eq_lit(s, "Separator") {
            Some(Key::Separator)
        } else if chars_eq_lit(s, "ShiftLock") {
            Some(Key::ShiftLock)
        } else if chars_eq_lit(s, "VidMirror") {
            Some(Key::VidMirror)
        } else {
            None
        }
    } else if s.len() == 10 {
        if chars_eq_lit(s, "ContrastUp") {
            Some(Key::ContrastUp)
        } else if chars_eq_lit(s, "DBENoRoman") {
            Some(Key::DBENoRoman)
        } else if chars_eq_lit(s, "LaunchApp1") {
            Some(Key::LaunchApp1)
        } else if chars_eq_lit(s, "LaunchApp2") {
            Some(Key::LaunchApp2)
        } else if chars_eq_lit(s, "LaunchMail") {
            Some(Key::LaunchMail)
        } else if chars_eq_lit(s, "ModeChange") {
            Some(Key::ModeChange)
        } else if chars_eq_lit(s, "NonConvert") {
            Some(Key::NonConvert)
        } else if chars_eq_lit(s, "OEMBacktab") {
            Some(Key::OEMBacktab)
        } else if chars_eq_lit(s, "OEMFJJisho") {
            Some(Key::OEMFJJisho)
        } else if chars_eq_lit(s, "Processkey") {
            Some(Key::Processkey)
        } else if chars_eq_lit(s, "RightArrow") {
            Some(Key::RightArrow)
        } else if chars_eq_lit(s, "ScrollLock") {
            Some(Key::ScrollLock)
        } else if chars_eq_lit(s, "VolumeDown") {
            Some(Key::VolumeDown)
        } else if chars_eq_lit(s, "VolumeMute") {
            Some(Key::VolumeMute)
        } else {
            None
        }
    } else if s.len() == 11 {
        if chars_eq_lit(s, "BrowserBack") {
            Some(Key::BrowserBack)
        } else if chars_eq_lit(s, "BrowserHome") {
            Some(Key::BrowserHome)
        } else if chars_eq_lit(s, "BrowserStop") {
            Some(Key::BrowserStop)
        } else if chars_eq_lit(s, "DBEHiragana") {
            Some(Key::DBEHiragana)
        } else if chars_eq_lit(s, "DBEKatakana") {
            Some(Key::DBEKatakana)
        } else if chars_eq_lit(s, "DBESBCSChar") {
            Some(Key::DBESBCSChar)
        } else if chars_eq_lit(s, "GamepadMenu") {
            Some(Key::GamepadMenu)
        } else if chars_eq_lit(s, "GamepadView") {
            Some(Key::GamepadView)
        } else if chars_eq_lit(s, "LaunchPanel") {
            Some(Key::LaunchPanel)
        } else if chars_eq_lit(s, "MediaRewind") {
            Some(Key::MediaRewind)
        } else if chars_eq_lit(s, "OEMNECEqual") {
            Some(Key::OEMNECEqual)
        } else {
            None
        }
    } else if s.len() == 12 {
        if chars_eq_lit(s, "BrightnessUp") {
            Some(Key::BrightnessUp)
        } else if chars_eq_lit(s, "ContrastDown") {
            Some(Key::ContrastDown)
        } else if chars_eq_lit(s, "DBECodeinput") {
            Some(Key::DBECodeinput)
        } else if chars_eq_lit(s, "NavigationUp") {
            Some(Key::NavigationUp)
        } else if chars_eq_lit(s, "OEMFJMasshou") {
            Some(Key::OEMFJMasshou)
        } else if chars_eq_lit(s, "OEMFJTouroku") {
            Some(Key::OEMFJTouroku)
        } else if chars_eq_lit(s, "ScriptSwitch") {
            Some(Key::ScriptSwitch)
        } else {
            None
        }
    } else if s.len() == 13 {
        if chars_eq_lit(s, "BrowserSearch") {
            Some(Key::BrowserSearch)
        } else if chars_eq_lit(s, "GamepadDPadUp") {
            Some(Key::GamepadDPadUp)
        } else {
            None
        }
    } else if s.len() == 14 {
        if chars_eq_lit(s, "BrightnessDown") {
            Some(Key::BrightnessDown)
        } else if chars_eq_lit(s, "BrowserForward") {
            Some(Key::BrowserForward)
        } else if chars_eq_lit(s, "BrowserRefresh") {
            Some(Key::BrowserRefresh)
        } else if chars_eq_lit(s, "DBEFlushString") {
            Some(Key::DBEFlushString)
        } else if chars_eq_lit(s, "DBENoCodepoint") {
            Some(Key::DBENoCodepoint)
        } else if chars_eq_lit(s, "IlluminationUp") {
            Some(Key::IlluminationUp)
        } else if chars_eq_lit(s, "MediaNextTrack") {
            Some(Key::MediaNextTrack)
        } else if chars_eq_lit(s, "MediaPlayPause") {
            Some(Key::MediaPlayPause)
        } else if chars_eq_lit(s, "MediaPrevTrack") {
            Some(Key::MediaPrevTrack)
        } else if chars_eq_lit(s, "MissionControl") {
            Some(Key::MissionControl)
        } else if chars_eq_lit(s, "NavigationDown") {
            Some(Key::NavigationDown)
        } else if chars_eq_lit(s, "NavigationLeft") {
            Some(Key::NavigationLeft)
        } else if chars_eq_lit(s, "NavigationMenu") {
            Some(Key::NavigationMenu)
        } else if chars_eq_lit(s, "NavigationView") {
            Some(Key::NavigationView)
        } else {
            None
        }
    } else if s.len() == 15 {
        if chars_eq_lit(s, "DBEAlphanumeric") {
            Some(Key::DBEAlphanumeric)
        } else if chars_eq_lit(s, "GamepadDPadDown") {
            Some(Key::GamepadDPadDown)
        } else if chars_eq_lit(s, "GamepadDPadLeft") {
            Some(Key::GamepadDPadLeft)
        } else if chars_eq_lit(s, "NavigationRight") {
            Some(Key::NavigationRight)
        } else {
            None
        }
    } else if s.len() == 16 {
        if chars_eq_lit(s, "BrowserFavorites") {
            Some(Key::BrowserFavorites)
        } else if chars_eq_lit(s, "GamepadDPadRight") {
            Some(Key::GamepadDPadRight)
        } else if chars_eq_lit(s, "IlluminationDown") {
            Some(Key::IlluminationDown)
        } else if chars_eq_lit(s, "NavigationAccept") {
            Some(Key::NavigationAccept)
        } else if chars_eq_lit(s, "NavigationCancel") {
            Some(Key::NavigationCancel)
        } else {
            None
        }
    } else if s.len() == 17 {
        if chars_eq_lit(s, "LaunchMediaSelect") {
            Some(Key::LaunchMediaSelect)
        } else {
            None
        }
    } else if s.len() == 18 {
        if chars_eq_lit(s, "DBEDetermineString") {
            Some(Key::DBEDetermineString)
        } else if chars_eq_lit(s, "GamepadLeftTrigger") {
            Some(Key::GamepadLeftTrigger)
        } else if chars_eq_lit(s, "IlluminationToggle") {
            Some(Key::IlluminationToggle)
        } else {
            None
        }
    } else if s.len() == 19 {
        if chars_eq_lit(s, "GamepadLeftShoulder") {
            Some(Key::GamepadLeftShoulder)
        } else if chars_eq_lit(s, "GamepadRightTrigger") {
            Some(Key::GamepadRightTrigger)
        } else {
            None
        }
    } else if s.len() == 20 {
        if chars_eq_lit(s, "GamepadRightShoulder") {
            Some(Key::GamepadRightShoulder)
        } else {
            None
        }
    } else if s.len() == 21 {
        if chars_eq_lit(s, "DBEEnterIMEConfigMode") {
            Some(Key::DBEEnterIMEConfigMode)
        } else {
            None
        }
    } else if s.len() == 23 {
        if chars_eq_lit(s, "GamepadLeftThumbstickUp") {
            Some(Key::GamepadLeftThumbstickUp)
        } else {
            None
        }
    } else if s.len() == 24 {
        if chars_eq_lit(s, "DBEEnterWordRegisterMode") {
            Some(Key::DBEEnterWordRegisterMode)
        } else if chars_eq_lit(s, "GamepadRightThumbstickUp") {
            Some(Key::GamepadRightThumbstickUp)
        } else {
            None
        }
    } else if s.len() == 25 {
        if chars_eq_lit(s, "DBEEnterDLGConversionMode") {
            Some(Key::DBEEnterDLGConversionMode)
        } else if chars_eq_lit(s, "GamepadLeftThumbstickDown") {
            Some(Key::GamepadLeftThumbstickDown)
        } else if chars_eq_lit(s, "GamepadLeftThumbstickLeft") {
            Some(Key::GamepadLeftThumbstickLeft)
        } else {
            None
        }
    } else if s.len() == 26 {
        if chars_eq_lit(s, "GamepadLeftThumbstickRight") {
            Some(Key::GamepadLeftThumbstickRight)
        } else if chars_eq_lit(s, "GamepadRightThumbstickDown") {
            Some(Key::GamepadRightThumbstickDown)
        } else if chars_eq_lit(s, "GamepadRightThumbstickLeft") {
            Some(Key::GamepadRightThumbstickLeft)
        } else {
            None
        }
    } else if s.len() == 27 {
        if chars_eq_lit(s, "GamepadLeftThumbstickButton") {
            Some(Key::GamepadLeftThumbstickButton)
        } else if chars_eq_lit(s, "GamepadRightThumbstickRight") {
            Some(Key::GamepadRightThumbstickRight)
        } else {
            None
        }
    } else if s.len() == 28 {
        if chars_eq_lit(s, "GamepadRightThumbstickButton") {
            Some(Key::GamepadRightThumbstickButton)
        } else {
            None
        }
    } else {
        None
    }
}



/// Decoding inverts the canonical names of this length.
#[verifier::rlimit(50)]
proof fn lemma_key_names_len_1()
    ensures
        spec_key_of_name("A"@) == Some(Key::A),
        spec_key_of_name("B"@) == Some(Key::B),
        spec_key_of_name("C"@) == Some(Key::C),
        spec_key_of_name("D"@) == Some(Key::D),
        spec_key_of_name("E"@) == Some(Key::E),
        spec_key_of_name("F"@) == Some(Key::F),
        spec_key_of_name("G"@) == Some(Key::G),
        spec_key_of_name("H"@) == Some(Key::H),
        spec_key_of_name("I"@) == Some(Key::I),
        spec_key_of_name("J"@) == Some(Key::J),
        spec_key_of_name("K"@) == Some(Key::K),
        spec_key_of_name("L"@) == Some(Key::L),
        spec_key_of_name("M"@) == Some(Key::M),
        spec_key_of_name("N"@) == Some(Key::N),
        spec_key_of_name("O"@) == Some(Key::O),
        spec_key_of_name("P"@) == Some(Key::P),
        spec_key_of_name("Q"@) == Some(Key::Q),
        spec_key_of_name("R"@) == Some(Key::R),
        spec_key_of_name("S"@) == Some(Key::S),
        spec_key_of_name("T"@) == Some(Key::T),
        spec_key_of_name("U"@) == Some(Key::U),
        spec_key_of_name("V"@) == Some(Key::V),
        spec_key_of_name("W"@) == Some(Key::W),
        spec_key_of_name("X"@) == Some(Key::X),
        spec_key_of_name("Y"@) == Some(Key::Y),
        spec_key_of_name("Z"@) == Some(Key::Z),
{
    reveal_strlit("A");
    reveal_strlit("B");
    reveal_strlit("C");
    reveal_strlit("D");
    reveal_strlit("E");
    reveal_strlit("F");
    reveal_strlit("G");
    reveal_strlit("H");
    reveal_strlit("I");
    reveal_strlit("J");
    reveal_strlit("K");
    reveal_strlit("L");
    reveal_strlit("M");
    reveal_strlit("N");
    reveal_strlit("O");
    reveal_strlit("P");
    reveal_strlit("Q");
    reveal_strlit("R");
    reveal_strlit("S");
    reveal_strlit("T");
    reveal_strlit("U");
    reveal_strlit("V");
    reveal_strlit("W");
    reveal_strlit("X");
    reveal_strlit("Y");
    reveal_strlit("Z");
    assert("A"@.len() == 1);
    assert("A"@[0] == 'A');
    assert("B"@.len() == 1);
    assert("B"@[0] == 'B');
    assert("C"@.len() == 1);
    assert("C"@[0] == 'C');
    assert("D"@.len() == 1);
    assert("D"@[0] == 'D');
    assert("E"@.len() == 1);
    assert("E"@[0] == 'E');
    assert("F"@.len() == 1);
    assert("F"@[0] == 'F');
    assert("G"@.len() == 1);
    assert("G"@[0] == 'G');
    assert("H"@.len() == 1);
    assert("H"@[0] == 'H');
    assert("I"@.len() == 1);
    assert("I"@[0] == 'I');
    assert("J"@.len() == 1);
    assert("J"@[0] == 'J');
    assert("K"@.len() == 1);
    assert("K"@[0] == 'K');
    assert("L"@.len() == 1);
    assert("L"@[0] == 'L');
    assert("M"@.len() == 1);
    assert("M"@[0] == 'M');
    assert("N"@.len() == 1);
    assert("N"@[0] == 'N');
    assert("O"@.len() == 1);
    assert("O"@[0] == 'O');
    assert("P"@.len() == 1);
    assert("P"@[0] == 'P');
    assert("Q"@.len() == 1);
    assert("Q"@[0] == 'Q');
    assert("R"@.len() == 1);
    assert("R"@[0] == 'R');
    assert("S"@.len() == 1);
    assert("S"@[0] == 'S');
    assert("T"@.len() == 1);
    assert("T"@[0] == 'T');
    assert("U"@.len() == 1);
    assert("U"@[0] == 'U');
    assert("V"@.len() == 1);
    assert("V"@[0] == 'V');
    assert("W"@.len() == 1);
    assert("W"@[0] == 'W');
    assert("X"@.len() == 1);
    assert("X"@[0] == 'X');
    assert("Y"@.len() == 1);
    assert("Y"@[0] == 'Y');
    assert("Z"@.len() == 1);
    assert("Z"@[0] == 'Z');
    assert(spec_key_of_name("A"@) == Some(Key::A));
    assert(spec_key_of_name("B"@) == Some(Key::B));
    assert(spec_key_of_name("C"@) == Some(Key::C));
    assert(spec_key_of_name("D"@) == Some(Key::D));
    assert(spec_key_of_name("E"@) == Some(Key::E));
    assert(spec_key_of_name("F"@) == Some(Key::F));
    assert(spec_key_of_name("G"@) == Some(Key::G));
    assert(spec_key_of_name("H"@) == Some(Key::H));
    assert(spec_key_of_name("I"@) == Some(Key::I));
    assert(spec_key_of_name("J"@) == Some(Key::J));
    assert(spec_key_of_name("K"@) == Some(Key::K));
    assert(spec_key_of_name("L"@) == Some(Key::L));
    assert(spec_key_of_name("M"@) == Some(Key::M));
    assert(spec_key_of_name("N"@) == Some(Key::N));
    assert(spec_key_of_name("O"@) == Some(Key::O));
    assert(spec_key_of_name("P"@) == Some(Key::P));
    assert(spec_key_of_name("Q"@) == Some(Key::Q));
    assert(spec_key_of_name("R"@) == Some(Key::R));
    assert(spec_key_of_name("S"@) == Some(Key::S));
    assert(spec_key_of_name("T"@) == Some(Key::T));
    assert(spec_key_of_name("U"@) == Some(Key::U));
    assert(spec_key_of_name("V"@) == Some(Key::V));
    assert(spec_key_of_name("W"@) == Some(Key::W));
    assert(spec_key_of_name("X"@) == Some(Key::X));
    assert(spec_key_of_name("Y"@) == Some(Key::Y));
    assert(spec_key_of_name("Z"@) == Some(Key::Z));
}

/// Decoding inverts the canonical names of this length.
#[verifier::rlimit(50)]
proof fn lemma_key_names_len_2()
    ensures
        spec_key_of_name("F1"@) == Some(Key::F1),
        spec_key_of_name("F2"@) == Some(Key::F2),
        spec_key_of_name("F3"@) == Some(Key::F3),
        spec_key_of_name("F4"@) == Some(Key::F4),
        spec_key_of_name("F5"@) == Some(Key::F5),
        spec_key_of_name("F6"@) == Some(Key::F6),
        spec_key_of_name("F7"@) == Some(Key::F7),
        spec_key_of_name("F8"@) == Some(Key::F8),
        spec_key_of_name("F9"@) == Some(Key::F9),
{
    reveal_strlit("F1");
    reveal_strlit("F2");
    reveal_strlit("F3");
    reveal_strlit("F4");
    reveal_strlit("F5");
    reveal_strlit("F6");
    reveal_strlit("F7");
    reveal_strlit("F8");
    reveal_strlit("F9");
    assert("F1"@.len() == 2);
    assert("F1"@[1] == '1');
    assert("F2"@.len() == 2);
    assert("F2"@[1] == '2');
    assert("F3"@.len() == 2);
    assert("F3"@[1] == '3');
    assert("F4"@.len() == 2);
    assert("F4"@[1] == '4');
    assert("F5"@.len() == 2);
    assert("F5"@[1] == '5');
    assert("F6"@.len() == 2);
    assert("F6"@[1] == '6');
    assert("F7"@.len() == 2);
    assert("F7"@[1] == '7');
    assert("F8"@.len() == 2);
    assert("F8"@[1] == '8');
    assert("F9"@.len() == 2);
    assert("F9"@[1] == '9');
    assert(spec_key_of_name("F1"@) == Some(Key::F1));
    assert(spec_key_of_name("F2"@) == Some(Key::F2));
    assert(spec_key_of_name("F3"@) == Some(Key::F3));
    assert(spec_key_of_name("F4"@) == Some(Key::F4));
    assert(spec_key_of_name("F5"@) == Some(Key::F5));
    assert(spec_key_of_name("F6"@) == Some(Key::F6));
    assert(spec_key_of_name("F7"@) == Some(Key::F7));
    assert(spec_key_of_name("F8"@) == Some(Key::F8));
    assert(spec_key_of_name("F9"@) == Some(Key::F9));
}

/// Decoding inverts the canonical names of this length.
#[verifier::rlimit(50)]
proof fn lemma_key_names_len_3()
    ensures
        spec_key_of_name("Add"@) == Some(Key::Add),
        spec_key_of_name("Alt"@) == Some(Key::Alt),
        spec_key_of_name("End"@) == Some(Key::End),
        spec_key_of_name("F10"@) == Some(Key::F10),
        spec_key_of_name("F11"@) == Some(Key::F11),
        spec_key_of_name("F12"@) == Some(Key::F12),
        spec_key_of_name("F13"@) == Some(Key::F13),
        spec_key_of_name("F14"@) == Some(Key::F14),
        spec_key_of_name("F15"@) == Some(Key::F15),
        spec_key_of_name("F16"@) == Some(Key::F16),
        spec_key_of_name("F17"@) == Some(Key::F17),
        spec_key_of_name("F18"@) == Some(Key::F18),
        spec_key_of_name("F19"@) == Some(Key::F19),
        spec_key_of_name("F20"@) == Some(Key::F20),
        spec_key_of_name("F21"@) == Some(Key::F21),
        spec_key_of_name("F22"@) == Some(Key::F22),
        spec_key_of_name("F23"@) == Some(Key::F23),
        spec_key_of_name("F24"@) == Some(Key::F24),
        spec_key_of_name("F25"@) == Some(Key::F25),
        spec_key_of_name("F26"@) == Some(Key::F26),
        spec_key_of_name("F27"@) == Some(Key::F27),
        spec_key_of_name("F28"@) == Some(Key::F28),
        spec_key_of_name("F29"@) == Some(Key::F29),
        spec_key_of_name("F30"@) == Some(Key::F30),
        spec_key_of_name("F31"@) == Some(Key::F31),
        spec_key_of_name("F32"@) == Some(Key::F32),
        spec_key_of_name("F33"@) == Some(Key::F33),
        spec_key_of_name("F34"@) == Some(Key::F34),
        spec_key_of_name("F35"@) == Some(Key::F35),
        spec_key_of_name("PA1"@) == Some(Key::PA1),
        spec_key_of_name("Tab"@) == Some(Key::Tab),
{
    reveal_strlit("Add");
    reveal_strlit("Alt");
    reveal_strlit("End");
    reveal_strlit("F10");
    reveal_strlit("F11");
    reveal_strlit("F12");
    reveal_strlit("F13");
    reveal_strlit("F14");
    reveal_strlit("F15");
    reveal_strlit("F16");
    reveal_strlit("F17");
    reveal_strlit("F18");
    reveal_strlit("F19");
    reveal_strlit("F20");
    reveal_strlit("F21");
    reveal_strlit("F22");
    reveal_strlit("F23");
    reveal_strlit("F24");
    reveal_strlit("F25");
    reveal_strlit("F26");
    reveal_strlit("F27");
    reveal_strlit("F28");
    reveal_strlit("F29");
    reveal_strlit("F30");
    reveal_strlit("F31");
    reveal_strlit("F32");
    reveal_strlit("F33");
    reveal_strlit("F34");
    reveal_strlit("F35");
    reveal_strlit("PA1");
    reveal_strlit("Tab");
    assert("Add"@.len() == 3);
    assert("Add"@[0] == 'A');
    assert("Add"@[1] == 'd');
    assert("Alt"@.len() == 3);
    assert("Alt"@[0] == 'A');
    assert("Alt"@[1] == 'l');
    assert("End"@.len() == 3);
    assert("End"@[0] == 'E');
    assert("F10"@.len() == 3);
    assert("F10"@[0] == 'F');
    assert("F10"@[1] == '1');
    assert("F10"@[2] == '0');
    assert("F11"@.len() == 3);
    assert("F11"@[0] == 'F');
    assert("F11"@[1] == '1');
    assert("F11"@[2] == '1');
    assert("F12"@.len() == 3);
    assert("F12"@[0] == 'F');
    assert("F12"@[1] == '1');
    assert("F12"@[2] == '2');
    assert("F13"@.len() == 3);
    assert("F13"@[0] == 'F');
    assert("F13"@[1] == '1');
    assert("F13"@[2] == '3');
    assert("F14"@.len() == 3);
    assert("F14"@[0] == 'F');
    assert("F14"@[1] == '1');
    assert("F14"@[2] == '4');
    assert("F15"@.len() == 3);
    assert("F15"@[0] == 'F');
    assert("F15"@[1] == '1');
    assert("F15"@[2] == '5');
    assert("F16"@.len() == 3);
    assert("F16"@[0] == 'F');
    assert("F16"@[1] == '1');
    assert("F16"@[2] == '6');
    assert("F17"@.len() == 3);
    assert("F17"@[0] == 'F');
    assert("F17"@[1] == '1');
    assert("F17"@[2] == '7');
    assert("F18"@.len() == 3);
    assert("F18"@[0] == 'F');
    assert("F18"@[1] == '1');
    assert("F18"@[2] == '8');
    assert("F19"@.len() == 3);
    assert("F19"@[0] == 'F');
    assert("F19"@[1] == '1');
    assert("F19"@[2] == '9');
    assert("F20"@.len() == 3);
    assert("F20"@[0] == 'F');
    assert("F20"@[1] == '2');
    assert("F20"@[2] == '0');
    assert("F21"@.len() == 3);
    assert("F21"@[0] == 'F');
    assert("F21"@[1] == '2');
    assert("F21"@[2] == '1');
    assert("F22"@.len() == 3);
    assert("F22"@[0] == 'F');
    assert("F22"@[1] == '2');
    assert("F22"@[2] == '2');
    assert("F23"@.len() == 3);
    assert("F23"@[0] == 'F');
    assert("F23"@[1] == '2');
    assert("F23"@[2] == '3');
    assert("F24"@.len() == 3);
    assert("F24"@[0] == 'F');
    assert("F24"@[1] == '2');
    assert("F24"@[2] == '4');
    assert("F25"@.len() == 3);
    assert("F25"@[0] == 'F');
    assert("F25"@[1] == '2');
    assert("F25"@[2] == '5');
    assert("F26"@.len() == 3);
    assert("F26"@[0] == 'F');
    assert("F26"@[1] == '2');
    assert("F26"@[2] == '6');
    assert("F27"@.len() == 3);
    assert("F27"@[0] == 'F');
    assert("F27"@[1] == '2');
    assert("F27"@[2] == '7');
    assert("F28"@.len() == 3);
    assert("F28"@[0] == 'F');
    assert("F28"@[1] == '2');
    assert("F28"@[2] == '8');
    assert("F29"@.len() == 3);
    assert("F29"@[0] == 'F');
    assert("F29"@[1] == '2');
    assert("F29"@[2] == '9');
    assert("F30"@.len() == 3);
    assert("F30"@[0] == 'F');
    assert("F30"@[1] == '3');
    assert("F30"@[2] == '0');
    assert("F31"@.len() == 3);
    assert("F31"@[0] == 'F');
    assert("F31"@[1] == '3');
    assert("F31"@[2] == '1');
    assert("F32"@.len() == 3);
    assert("F32"@[0] == 'F');
    assert("F32"@[1] == '3');
    assert("F32"@[2] == '2');
    assert("F33"@.len() == 3);
    assert("F33"@[0] == 'F');
    assert("F33"@[1] == '3');
    assert("F33"@[2] == '3');
    assert("F34"@.len() == 3);
    assert("F34"@[0] == 'F');
    assert("F34"@[1] == '3');
    assert("F34"@[2] == '4');
    assert("F35"@.len() == 3);
    assert("F35"@[0] == 'F');
    assert("F35"@[1] == '3');
    assert("F35"@[2] == '5');
    assert("PA1"@.len() == 3);
    assert("PA1"@[0] == 'P');
    assert("Tab"@.len() == 3);
    assert("Tab"@[0] == 'T');
    assert(spec_key_of_name("Add"@) == Some(Key::Add));
    assert(spec_key_of_name("Alt"@) == Some(Key::Alt));
    assert(spec_key_of_name("End"@) == Some(Key::End));
    assert(spec_key_of_name("F10"@) == Some(Key::F10));
    assert(spec_key_of_name("F11"@) == Some(Key::F11));
    assert(spec_key_of_name("F12"@) == Some(Key::F12));
    assert(spec_key_of_name("F13"@) == Some(Key::F13));
    assert(spec_key_of_name("F14"@) == Some(Key::F14));
    assert(spec_key_of_name("F15"@) == Some(Key::F15));
    assert(spec_key_of_name("F16"@) == Some(Key::F16));
    assert(spec_key_of_name("F17"@) == Some(Key::F17));
    assert(spec_key_of_name("F18"@) == Some(Key::F18));
    assert(spec_key_of_name("F19"@) == Some(Key::F19));
    assert(spec_key_of_name("F20"@) == Some(Key::F20));
    assert(spec_key_of_name("F21"@) == Some(Key::F21));
    assert(spec_key_of_name("F22"@) == Some(Key::F22));
    assert(spec_key_of_name("F23"@) == Some(Key::F23));
    assert(spec_key_of_name("F24"@) == Some(Key::F24));
    assert(spec_key_of_name("F25"@) == Some(Key::F25));
    assert(spec_key_of_name("F26"@) == Some(Key::F26));
    assert(spec_key_of_name("F27"@) == Some(Key::F27));
    assert(spec_key_of_name("F28"@) == Some(Key::F28));
    assert(spec_key_of_name("F29"@) == Some(Key::F29));
    assert(spec_key_of_name("F30"@) == Some(Key::F30));
    assert(spec_key_of_name("F31"@) == Some(Key::F31));
    assert(spec_key_of_name("F32"@) == Some(Key::F32));
    assert(spec_key_of_name("F33"@) == Some(Key::F33));
    assert(spec_key_of_name("F34"@) == Some(Key::F34));
    assert(spec_key_of_name("F35"@) == Some(Key::F35));
    assert(spec_key_of_name("PA1"@) == Some(Key::PA1));
    assert(spec_key_of_name("Tab"@) == Some(Key::Tab));
}

/// Decoding inverts the canonical names of this length.
#[verifier::rlimit(50)]
proof fn lemma_key_names_len_4()
    ensures
        spec_key_of_name("Num0"@) == Some(Key::Num0),
        spec_key_of_name("Num1"@) == Some(Key::Num1),
        spec_key_of_name("Num2"@) == Some(Key::Num2),
        spec_key_of_name("Num3"@) == Some(Key::Num3),
        spec_key_of_name("Num4"@) == Some(Key::Num4),
        spec_key_of_name("Num5"@) == Some(Key::Num5),
        spec_key_of_name("Num6"@) == Some(Key::Num6),
        spec_key_of_name("Num7"@) == Some(Key::Num7),
        spec_key_of_name("Num8"@) == Some(Key::Num8),
        spec_key_of_name("Num9"@) == Some(Key::Num9),
        spec_key_of_name("Apps"@) == Some(Key::Apps),
        spec_key_of_name("Attn"@) == Some(Key::Attn),
        spec_key_of_name("Find"@) == Some(Key::Find),
        spec_key_of_name("Help"@) == Some(Key::Help),
        spec_key_of_name("Home"@) == Some(Key::Home),
        spec_key_of_name("Kana"@) == Some(Key::Kana),
        spec_key_of_name("LWin"@) == Some(Key::LWin),
        spec_key_of_name("Meta"@) == Some(Key::Meta),
        spec_key_of_name("None"@) == Some(Key::NoneKey),
        spec_key_of_name("OEM1"@) == Some(Key::OEM1),
        spec_key_of_name("OEM2"@) == Some(Key::OEM2),
        spec_key_of_name("OEM3"@) == Some(Key::OEM3),
        spec_key_of_name("OEM4"@) == Some(Key::OEM4),
        spec_key_of_name("OEM5"@) == Some(Key::OEM5),
        spec_key_of_name("OEM6"@) == Some(Key::OEM6),
        spec_key_of_name("OEM7"@) == Some(Key::OEM7),
        spec_key_of_name("OEM8"@) == Some(Key::OEM8),
        spec_key_of_name("Play"@) == Some(Key::Play),
        spec_key_of_name("Redo"@) == Some(Key::Redo),
        spec_key_of_name("RWin"@) == Some(Key::RWin),
        spec_key_of_name("Undo"@) == Some(Key::Undo),
        spec_key_of_name("Zoom"@) == Some(Key::Zoom),
{
    reveal_strlit("Num0");
    reveal_strlit("Num1");
    reveal_strlit("Num2");
    reveal_strlit("Num3");
    reveal_strlit("Num4");
    reveal_strlit("Num5");
    reveal_strlit("Num6");
    reveal_strlit("Num7");
    reveal_strlit("Num8");
    reveal_strlit("Num9");
    reveal_strlit("Apps");
    reveal_strlit("Attn");
    reveal_strlit("Find");
    reveal_strlit("Help");
    reveal_strlit("Home");
    reveal_strlit("Kana");
    reveal_strlit("LWin");
    reveal_strlit("Meta");
    reveal_strlit("None");
    reveal_strlit("OEM1");
    reveal_strlit("OEM2");
    reveal_strlit("OEM3");
    reveal_strlit("OEM4");
    reveal_strlit("OEM5");
    reveal_strlit("OEM6");
    reveal_strlit("OEM7");
    reveal_strlit("OEM8");
    reveal_strlit("Play");
    reveal_strlit("Redo");
    reveal_strlit("RWin");
    reveal_strlit("Undo");
    reveal_strlit("Zoom");
    reveal_strlit("ctrl");
    assert("Num0"@.len() == 4);
    assert("Num0"@[0] == 'N');
    assert("Num0"@[1] == 'u');
    assert("Num0"@[3] == '0');
    assert("Num1"@.len() == 4);
    assert("Num1"@[0] == 'N');
    assert("Num1"@[1] == 'u');
    assert("Num1"@[3] == '1');
    assert("Num2"@.len() == 4);
    assert("Num2"@[0] == 'N');
    assert("Num2"@[1] == 'u');
    assert("Num2"@[3] == '2');
    assert("Num3"@.len() == 4);
    assert("Num3"@[0] == 'N');
    assert("Num3"@[1] == 'u');
    assert("Num3"@[3] == '3');
    assert("Num4"@.len() == 4);
    assert("Num4"@[0] == 'N');
    assert("Num4"@[1] == 'u');
    assert("Num4"@[3] == '4');
    assert("Num5"@.len() == 4);
    assert("Num5"@[0] == 'N');
    assert("Num5"@[1] == 'u');
    assert("Num5"@[3] == '5');
    assert("Num6"@.len() == 4);
    assert("Num6"@[0] == 'N');
    assert("Num6"@[1] == 'u');
    assert("Num6"@[3] == '6');
    assert("Num7"@.len() == 4);
    assert("Num7"@[0] == 'N');
    assert("Num7"@[1] == 'u');
    assert("Num7"@[3] == '7');
    assert("Num8"@.len() == 4);
    assert("Num8"@[0] == 'N');
    assert("Num8"@[1] == 'u');
    assert("Num8"@[3] == '8');
    assert("Num9"@.len() == 4);
    assert("Num9"@[0] == 'N');
    assert("Num9"@[1] == 'u');
    assert("Num9"@[3] == '9');
    assert("Apps"@.len() == 4);
    assert("Apps"@[0] == 'A');
    assert("Apps"@[1] == 'p');
    assert("Attn"@.len() == 4);
    assert("Attn"@[0] == 'A');
    assert("Attn"@[1] == 't');
    assert("Find"@.len() == 4);
    assert("Find"@[0] == 'F');
    assert("Help"@.len() == 4);
    assert("Help"@[0] == 'H');
    assert("Help"@[1] == 'e');
    assert("Home"@.len() == 4);
    assert("Home"@[0] == 'H');
    assert("Home"@[1] == 'o');
    assert("Kana"@.len() == 4);
    assert("Kana"@[0] == 'K');
    assert("LWin"@.len() == 4);
    assert("LWin"@[0] == 'L');
    assert("Meta"@.len() == 4);
    assert("Meta"@[0] == 'M');
    assert("None"@.len() == 4);
    assert("None"@[0] == 'N');
    assert("None"@[1] == 'o');
    assert("OEM1"@.len() == 4);
    assert("OEM1"@[0] == 'O');
    assert("OEM1"@[3] == '1');
    assert("OEM2"@.len() == 4);
    assert("OEM2"@[0] == 'O');
    assert("OEM2"@[3] == '2');
    assert("OEM3"@.len() == 4);
    assert("OEM3"@[0] == 'O');
    assert("OEM3"@[3] == '3');
    assert("OEM4"@.len() == 4);
    assert("OEM4"@[0] == 'O');
    assert("OEM4"@[3] == '4');
    assert("OEM5"@.len() == 4);
    assert("OEM5"@[0] == 'O');
    assert("OEM5"@[3] == '5');
    assert("OEM6"@.len() == 4);
    assert("OEM6"@[0] == 'O');
    assert("OEM6"@[3] == '6');
    assert("OEM7"@.len() == 4);
    assert("OEM7"@[0] == 'O');
    assert("OEM7"@[3] == '7');
    assert("OEM8"@.len() == 4);
    assert("OEM8"@[0] == 'O');
    assert("OEM8"@[3] == '8');
    assert("Play"@.len() == 4);
    assert("Play"@[0] == 'P');
    assert("Redo"@.len() == 4);
    assert("Redo"@[0] == 'R');
    assert("Redo"@[1] == 'e');
    assert("RWin"@.len() == 4);
    assert("RWin"@[0] == 'R');
    assert("RWin"@[1] == 'W');
    assert("Undo"@.len() == 4);
    assert("Undo"@[0] == 'U');
    assert("Zoom"@.len() == 4);
    assert("Zoom"@[0] == 'Z');
    assert("ctrl"@.len() == 4);
    assert("ctrl"@[0] == 'c');
    assert(spec_key_of_name("Num0"@) == Some(Key::Num0));
    assert(spec_key_of_name("Num1"@) == Some(Key::Num1));
    assert(spec_key_of_name("Num2"@) == Some(Key::Num2));
    assert(spec_key_of_name("Num3"@) == Some(Key::Num3));
    assert(spec_key_of_name("Num4"@) == Some(Key::Num4));
    assert(spec_key_of_name("Num5"@) == Some(Key::Num5));
    assert(spec_key_of_name("Num6"@) == Some(Key::Num6));
    assert(spec_key_of_name("Num7"@) == Some(Key::Num7));
    assert(spec_key_of_name("Num8"@) == Some(Key::Num8));
    assert(spec_key_of_name("Num9"@) == Some(Key::Num9));
    assert(spec_key_of_name("Apps"@) == Some(Key::Apps));
    assert(spec_key_of_name("Attn"@) == Some(Key::Attn));
    assert(spec_key_of_name("Find"@) == Some(Key::Find));
    assert(spec_key_of_name("Help"@) == Some(Key::Help));
    assert(spec_key_of_name("Home"@) == Some(Key::Home));
    assert(spec_key_of_name("Kana"@) == Some(Key::Kana));
    assert(spec_key_of_name("LWin"@) == Some(Key::LWin));
    assert(spec_key_of_name("Meta"@) == Some(Key::Meta));
    assert(spec_key_of_name("None"@) == Some(Key::NoneKey));
    assert(spec_key_of_name("OEM1"@) == Some(Key::OEM1));
    assert(spec_key_of_name("OEM2"@) == Some(Key::OEM2));
    assert(spec_key_of_name("OEM3"@) == Some(Key::OEM3));
    assert(spec_key_of_name("OEM4"@) == Some(Key::OEM4));
    assert(spec_key_of_name("OEM5"@) == Some(Key::OEM5));
    assert(spec_key_of_name("OEM6"@) == Some(Key::OEM6));
    assert(spec_key_of_name("OEM7"@) == Some(Key::OEM7));
    assert(spec_key_of_name("OEM8"@) == Some(Key::OEM8));
    assert(spec_key_of_name("Play"@) == Some(Key::Play));
    assert(spec_key_of_name("Redo"@) == Some(Key::Redo));
    assert(spec_key_of_name("RWin"@) == Some(Key::RWin));
    assert(spec_key_of_name("Undo"@) == Some(Key::Undo));
    assert(spec_key_of_name("Zoom"@) == Some(Key::Zoom));
}

/// Decoding inverts the canonical names of this length.
#[verifier::rlimit(50)]
proof fn lemma_key_names_len_5()
    ensures
        spec_key_of_name("Break"@) == Some(Key::Break),
        spec_key_of_name("Begin"@) == Some(Key::Begin),
        spec_key_of_name("Clear"@) == Some(Key::Clear),
        spec_key_of_name("Crsel"@) == Some(Key::Crsel),
        spec_key_of_name("Eject"@) == Some(Key::Eject),
        spec_key_of_name("Ereof"@) == Some(Key::Ereof),
        spec_key_of_name("Exsel"@) == Some(Key::Exsel),
        spec_key_of_name("Final"@) == Some(Key::Final),
        spec_key_of_name("Hanja"@) == Some(Key::Hanja),
        spec_key_of_name("Ico00"@) == Some(Key::Ico00),
        spec_key_of_name("IMEOn"@) == Some(Key::IMEOn),
        spec_key_of_name("Junja"@) == Some(Key::Junja),
        spec_key_of_name("Kanji"@) == Some(Key::Kanji),
        spec_key_of_name("LMenu"@) == Some(Key::LMenu),
        spec_key_of_name("OEMAx"@) == Some(Key::OEMAx),
        spec_key_of_name("Pause"@) == Some(Key::Pause),
        spec_key_of_name("Power"@) == Some(Key::Power),
        spec_key_of_name("Print"@) == Some(Key::Print),
        spec_key_of_name("RMenu"@) == Some(Key::RMenu),
        spec_key_of_name("Shift"@) == Some(Key::Shift),
        spec_key_of_name("Sleep"@) == Some(Key::Sleep),
        spec_key_of_name("Space"@) == Some(Key::Space),
{
    reveal_strlit("Break");
    reveal_strlit("Begin");
    reveal_strlit("Clear");
    reveal_strlit("Crsel");
    reveal_strlit("Eject");
    reveal_strlit("Ereof");
    reveal_strlit("Exsel");
    reveal_strlit("Final");
    reveal_strlit("Hanja");
    reveal_strlit("Ico00");
    reveal_strlit("IMEOn");
    reveal_strlit("Junja");
    reveal_strlit("Kanji");
    reveal_strlit("LMenu");
    reveal_strlit("OEMAx");
    reveal_strlit("Pause");
    reveal_strlit("Power");
    reveal_strlit("Print");
    reveal_strlit("RMenu");
    reveal_strlit("Shift");
    reveal_strlit("Sleep");
    reveal_strlit("Space");
    assert("Break"@.len() == 5);
    assert("Break"@[0] == 'B');
    assert("Break"@[1] == 'r');
    assert("Begin"@.len() == 5);
    assert("Begin"@[0] == 'B');
    assert("Begin"@[1] == 'e');
    assert("Clear"@.len() == 5);
    assert("Clear"@[0] == 'C');
    assert("Clear"@[1] == 'l');
    assert("Crsel"@.len() == 5);
    assert("Crsel"@[0] == 'C');
    assert("Crsel"@[1] == 'r');
    assert("Eject"@.len() == 5);
    assert("Eject"@[0] == 'E');
    assert("Eject"@[1] == 'j');
    assert("Ereof"@.len() == 5);
    assert("Ereof"@[0] == 'E');
    assert("Ereof"@[1] == 'r');
    assert("Exsel"@.len() == 5);
    assert("Exsel"@[0] == 'E');
    assert("Exsel"@[1] == 'x');
    assert("Final"@.len() == 5);
    assert("Final"@[0] == 'F');
    assert("Hanja"@.len() == 5);
    assert("Hanja"@[0] == 'H');
    assert("Ico00"@.len() == 5);
    assert("Ico00"@[0] == 'I');
    assert("Ico00"@[1] == 'c');
    assert("IMEOn"@.len() == 5);
    assert("IMEOn"@[0] == 'I');
    assert("IMEOn"@[1] == 'M');
    assert("Junja"@.len() == 5);
    assert("Junja"@[0] == 'J');
    assert("Kanji"@.len() == 5);
    assert("Kanji"@[0] == 'K');
    assert("LMenu"@.len() == 5);
    assert("LMenu"@[0] == 'L');
    assert("OEMAx"@.len() == 5);
    assert("OEMAx"@[0] == 'O');
    assert("Pause"@.len() == 5);
    assert("Pause"@[0] == 'P');
    assert("Pause"@[1] == 'a');
    assert("Power"@.len() == 5);
    assert("Power"@[0] == 'P');
    assert("Power"@[1] == 'o');
    assert("Print"@.len() == 5);
    assert("Print"@[0] == 'P');
    assert("Print"@[1] == 'r');
    assert("RMenu"@.len() == 5);
    assert("RMenu"@[0] == 'R');
    assert("Shift"@.len() == 5);
    assert("Shift"@[0] == 'S');
    assert("Shift"@[1] == 'h');
    assert("Sleep"@.len() == 5);
    assert("Sleep"@[0] == 'S');
    assert("Sleep"@[1] == 'l');
    assert("Space"@.len() == 5);
    assert("Space"@[0] == 'S');
    assert("Space"@[1] == 'p');
    assert(spec_key_of_name("Break"@) == Some(Key::Break));
    assert(spec_key_of_name("Begin"@) == Some(Key::Begin));
    assert(spec_key_of_name("Clear"@) == Some(Key::Clear));
    assert(spec_key_of_name("Crsel"@) == Some(Key::Crsel));
    assert(spec_key_of_name("Eject"@) == Some(Key::Eject));
    assert(spec_key_of_name("Ereof"@) == Some(Key::Ereof));
    assert(spec_key_of_name("Exsel"@) == Some(Key::Exsel));
    assert(spec_key_of_name("Final"@) == Some(Key::Final));
    assert(spec_key_of_name("Hanja"@) == Some(Key::Hanja));
    assert(spec_key_of_name("Ico00"@) == Some(Key::Ico00));
    assert(spec_key_of_name("IMEOn"@) == Some(Key::IMEOn));
    assert(spec_key_of_name("Junja"@) == Some(Key::Junja));
    assert(spec_key_of_name("Kanji"@) == Some(Key::Kanji));
    assert(spec_key_of_name("LMenu"@) == Some(Key::LMenu));
    assert(spec_key_of_name("OEMAx"@) == Some(Key::OEMAx));
    assert(spec_key_of_name("Pause"@) == Some(Key::Pause));
    assert(spec_key_of_name("Power"@) == Some(Key::Power));
    assert(spec_key_of_name("Print"@) == Some(Key::Print));
    assert(spec_key_of_name("RMenu"@) == Some(Key::RMenu));
    assert(spec_key_of_name("Shift"@) == Some(Key::Shift));
    assert(spec_key_of_name("Sleep"@) == Some(Key::Sleep));
    assert(spec_key_of_name("Space"@) == Some(Key::Space));
}

/// Decoding inverts the canonical names of this length.
#[verifier::rlimit(50)]
proof fn lemma_key_names_len_6()
    ensures
        spec_key_of_name("AbntC1"@) == Some(Key::AbntC1),
        spec_key_of_name("AbntC2"@) == Some(Key::AbntC2),
        spec_key_of_name("Accept"@) == Some(Key::Accept),
        spec_key_of_name("Cancel"@) == Some(Key::Cancel),
        spec_key_of_name("Delete"@) == Some(Key::Delete),
        spec_key_of_name("Divide"@) == Some(Key::Divide),
        spec_key_of_name("Escape"@) == Some(Key::Escape),
        spec_key_of_name("Hangul"@) == Some(Key::Hangul),
        spec_key_of_name("IMEOff"@) == Some(Key::IMEOff),
        spec_key_of_name("Insert"@) == Some(Key::Insert),
        spec_key_of_name("LShift"@) == Some(Key::LShift),
        spec_key_of_name("NoName"@) == Some(Key::NoName),
        spec_key_of_name("OEM102"@) == Some(Key::OEM102),
        spec_key_of_name("OEMPA1"@) == Some(Key::OEMPA1),
        spec_key_of_name("OEMPA2"@) == Some(Key::OEMPA2),
        spec_key_of_name("OEMPA3"@) == Some(Key::OEMPA3),
        spec_key_of_name("Option"@) == Some(Key::OptionKey),
        spec_key_of_name("Packet"@) == Some(Key::Packet),
        spec_key_of_name("PageUp"@) == Some(Key::PageUp),
        spec_key_of_name("Return"@) == Some(Key::Return),
        spec_key_of_name("RShift"@) == Some(Key::RShift),
        spec_key_of_name("Scroll"@) == Some(Key::Scroll),
        spec_key_of_name("Select"@) == Some(Key::Select),
        spec_key_of_name("SysReq"@) == Some(Key::SysReq),
{
    reveal_strlit("AbntC1");
    reveal_strlit("AbntC2");
    reveal_strlit("Accept");
    reveal_strlit("Cancel");
    reveal_strlit("Delete");
    reveal_strlit("Divide");
    reveal_strlit("Escape");
    reveal_strlit("Hangul");
    reveal_strlit("IMEOff");
    reveal_strlit("Insert");
    reveal_strlit("LShift");
    reveal_strlit("NoName");
    reveal_strlit("OEM102");
    reveal_strlit("OEMPA1");
    reveal_strlit("OEMPA2");
    reveal_strlit("OEMPA3");
    reveal_strlit("Option");
    reveal_strlit("Packet");
    reveal_strlit("PageUp");
    reveal_strlit("Return");
    reveal_strlit("RShift");
    reveal_strlit("Scroll");
    reveal_strlit("Select");
    reveal_strlit("SysReq");
    assert("AbntC1"@.len() == 6);
    assert("AbntC1"@[0] == 'A');
    assert("AbntC1"@[1] == 'b');
    assert("AbntC1"@[5] == '1');
    assert("AbntC2"@.len() == 6);
    assert("AbntC2"@[0] == 'A');
    assert("AbntC2"@[1] == 'b');
    assert("AbntC2"@[5] == '2');
    assert("Accept"@.len() == 6);
    assert("Accept"@[0] == 'A');
    assert("Accept"@[1] == 'c');
    assert("Cancel"@.len() == 6);
    assert("Cancel"@[0] == 'C');
    assert("Delete"@.len() == 6);
    assert("Delete"@[0] == 'D');
    assert("Delete"@[1] == 'e');
    assert("Divide"@.len() == 6);
    assert("Divide"@[0] == 'D');
    assert("Divide"@[1] == 'i');
    assert("Escape"@.len() == 6);
    assert("Escape"@[0] == 'E');
    assert("Hangul"@.len() == 6);
    assert("Hangul"@[0] == 'H');
    assert("IMEOff"@.len() == 6);
    assert("IMEOff"@[0] == 'I');
    assert("IMEOff"@[1] == 'M');
    assert("Insert"@.len() == 6);
    assert("Insert"@[0] == 'I');
    assert("Insert"@[1] == 'n');
    assert("LShift"@.len() == 6);
    assert("LShift"@[0] == 'L');
    assert("NoName"@.len() == 6);
    assert("NoName"@[0] == 'N');
    assert("OEM102"@.len() == 6);
    assert("OEM102"@[0] == 'O');
    assert("OEM102"@[1] == 'E');
    assert("OEM102"@[3] == '1');
    assert("OEMPA1"@.len() == 6);
    assert("OEMPA1"@[0] == 'O');
    assert("OEMPA1"@[1] == 'E');
    assert("OEMPA1"@[3] == 'P');
    assert("OEMPA1"@[5] == '1');
    assert("OEMPA2"@.len() == 6);
    assert("OEMPA2"@[0] == 'O');
    assert("OEMPA2"@[1] == 'E');
    assert("OEMPA2"@[3] == 'P');
    assert("OEMPA2"@[5] == '2');
    assert("OEMPA3"@.len() == 6);
    assert("OEMPA3"@[0] == 'O');
    assert("OEMPA3"@[1] == 'E');
    assert("OEMPA3"@[3] == 'P');
    assert("OEMPA3"@[5] == '3');
    assert("Option"@.len() == 6);
    assert("Option"@[0] == 'O');
    assert("Option"@[1] == 'p');
    assert("Packet"@.len() == 6);
    assert("Packet"@[0] == 'P');
    assert("Packet"@[2] == 'c');
    assert("PageUp"@.len() == 6);
    assert("PageUp"@[0] == 'P');
    assert("PageUp"@[2] == 'g');
    assert("Return"@.len() == 6);
    assert("Return"@[0] == 'R');
    assert("Return"@[1] == 'e');
    assert("RShift"@.len() == 6);
    assert("RShift"@[0] == 'R');
    assert("RShift"@[1] == 'S');
    assert("Scroll"@.len() == 6);
    assert("Scroll"@[0] == 'S');
    assert("Scroll"@[1] == 'c');
    assert("Select"@.len() == 6);
    assert("Select"@[0] == 'S');
    assert("Select"@[1] == 'e');
    assert("SysReq"@.len() == 6);
    assert("SysReq"@[0] == 'S');
    assert("SysReq"@[1] == 'y');
    assert(spec_key_of_name("AbntC1"@) == Some(Key::AbntC1));
    assert(spec_key_of_name("AbntC2"@) == Some(Key::AbntC2));
    assert(spec_key_of_name("Accept"@) == Some(Key::Accept));
    assert(spec_key_of_name("Cancel"@) == Some(Key::Cancel));
    assert(spec_key_of_name("Delete"@) == Some(Key::Delete));
    assert(spec_key_of_name("Divide"@) == Some(Key::Divide));
    assert(spec_key_of_name("Escape"@) == Some(Key::Escape));
    assert(spec_key_of_name("Hangul"@) == Some(Key::Hangul));
    assert(spec_key_of_name("IMEOff"@) == Some(Key::IMEOff));
    assert(spec_key_of_name("Insert"@) == Some(Key::Insert));
    assert(spec_key_of_name("LShift"@) == Some(Key::LShift));
    assert(spec_key_of_name("NoName"@) == Some(Key::NoName));
    assert(spec_key_of_name("OEM102"@) == Some(Key::OEM102));
    assert(spec_key_of_name("OEMPA1"@) == Some(Key::OEMPA1));
    assert(spec_key_of_name("OEMPA2"@) == Some(Key::OEMPA2));
    assert(spec_key_of_name("OEMPA3"@) == Some(Key::OEMPA3));
    assert(spec_key_of_name("Option"@) == Some(Key::OptionKey));
    assert(spec_key_of_name("Packet"@) == Some(Key::Packet));
    assert(spec_key_of_name("PageUp"@) == Some(Key::PageUp));
    assert(spec_key_of_name("Return"@) == Some(Key::Return));
    assert(spec_key_of_name("RShift"@) == Some(Key::RShift));
    assert(spec_key_of_name("Scroll"@) == Some(Key::Scroll));
    assert(spec_key_of_name("Select"@) == Some(Key::Select));
    assert(spec_key_of_name("SysReq"@) == Some(Key::SysReq));
}

/// Decoding inverts the canonical names of this length.
#[verifier::rlimit(50)]
proof fn lemma_key_names_len_7()
    ensures
        spec_key_of_name("Control"@) == Some(Key::Control),
        spec_key_of_name("Convert"@) == Some(Key::Convert),
        spec_key_of_name("Decimal"@) == Some(Key::Decimal),
        spec_key_of_name("Execute"@) == Some(Key::Execute),
        spec_key_of_name("Hangeul"@) == Some(Key::Hangeul),
        spec_key_of_name("IcoHelp"@) == Some(Key::IcoHelp),
        spec_key_of_name("LButton"@) == Some(Key::LButton),
        spec_key_of_name("MButton"@) == Some(Key::MButton),
        spec_key_of_name("Numlock"@) == Some(Key::Numlock),
        spec_key_of_name("Numpad0"@) == Some(Key::Numpad0),
        spec_key_of_name("Numpad1"@) == Some(Key::Numpad1),
        spec_key_of_name("Numpad2"@) == Some(Key::Numpad2),
        spec_key_of_name("Numpad3"@) == Some(Key::Numpad3),
        spec_key_of_name("Numpad4"@) == Some(Key::Numpad4),
        spec_key_of_name("Numpad5"@) == Some(Key::Numpad5),
        spec_key_of_name("Numpad6"@) == Some(Key::Numpad6),
        spec_key_of_name("Numpad7"@) == Some(Key::Numpad7),
        spec_key_of_name("Numpad8"@) == Some(Key::Numpad8),
        spec_key_of_name("Numpad9"@) == Some(Key::Numpad9),
        spec_key_of_name("OEMAttn"@) == Some(Key::OEMAttn),
        spec_key_of_name("OEMAuto"@) == Some(Key::OEMAuto),
        spec_key_of_name("OEMCopy"@) == Some(Key::OEMCopy),
        spec_key_of_name("OEMEnlw"@) == Some(Key::OEMEnlw),
        spec_key_of_name("OEMJump"@) == Some(Key::OEMJump),
        spec_key_of_name("OEMPlus"@) == Some(Key::OEMPlus),
        spec_key_of_name("RButton"@) == Some(Key::RButton),
        spec_key_of_name("ROption"@) == Some(Key::ROption),
        spec_key_of_name("UpArrow"@) == Some(Key::UpArrow),
        spec_key_of_name("MicMute"@) == Some(Key::MicMute),
{
    reveal_strlit("Control");
    reveal_strlit("Convert");
    reveal_strlit("Decimal");
    reveal_strlit("Execute");
    reveal_strlit("Hangeul");
    reveal_strlit("IcoHelp");
    reveal_strlit("LButton");
    reveal_strlit("MButton");
    reveal_strlit("Numlock");
    reveal_strlit("Numpad0");
    reveal_strlit("Numpad1");
    reveal_strlit("Numpad2");
    reveal_strlit("Numpad3");
    reveal_strlit("Numpad4");
    reveal_strlit("Numpad5");
    reveal_strlit("Numpad6");
    reveal_strlit("Numpad7");
    reveal_strlit("Numpad8");
    reveal_strlit("Numpad9");
    reveal_strlit("OEMAttn");
    reveal_strlit("OEMAuto");
    reveal_strlit("OEMCopy");
    reveal_strlit("OEMEnlw");
    reveal_strlit("OEMJump");
    reveal_strlit("OEMPlus");
    reveal_strlit("RButton");
    reveal_strlit("ROption");
    reveal_strlit("UpArrow");
    reveal_strlit("MicMute");
    assert("Control"@.len() == 7);
    assert("Control"@[0] == 'C');
    assert("Control"@[3] == 't');
    assert("Convert"@.len() == 7);
    assert("Convert"@[0] == 'C');
    assert("Convert"@[3] == 'v');
    assert("Decimal"@.len() == 7);
    assert("Decimal"@[0] == 'D');
    assert("Execute"@.len() == 7);
    assert("Execute"@[0] == 'E');
    assert("Hangeul"@.len() == 7);
    assert("Hangeul"@[0] == 'H');
    assert("IcoHelp"@.len() == 7);
    assert("IcoHelp"@[0] == 'I');
    assert("LButton"@.len() == 7);
    assert("LButton"@[0] == 'L');
    assert("MButton"@.len() == 7);
    assert("MButton"@[0] == 'M');
    assert("MButton"@[1] == 'B');
    assert("Numlock"@.len() == 7);
    assert("Numlock"@[0] == 'N');
    assert("Numlock"@[3] == 'l');
    assert("Numpad0"@.len() == 7);
    assert("Numpad0"@[0] == 'N');
    assert("Numpad0"@[3] == 'p');
    assert("Numpad0"@[6] == '0');
    assert("Numpad1"@.len() == 7);
    assert("Numpad1"@[0] == 'N');
    assert("Numpad1"@[3] == 'p');
    assert("Numpad1"@[6] == '1');
    assert("Numpad2"@.len() == 7);
    assert("Numpad2"@[0] == 'N');
    assert("Numpad2"@[3] == 'p');
    assert("Numpad2"@[6] == '2');
    assert("Numpad3"@.len() == 7);
    assert("Numpad3"@[0] == 'N');
    assert("Numpad3"@[3] == 'p');
    assert("Numpad3"@[6] == '3');
    assert("Numpad4"@.len() == 7);
    assert("Numpad4"@[0] == 'N');
    assert("Numpad4"@[3] == 'p');
    assert("Numpad4"@[6] == '4');
    assert("Numpad5"@.len() == 7);
    assert("Numpad5"@[0] == 'N');
    assert("Numpad5"@[3] == 'p');
    assert("Numpad5"@[6] == '5');
    assert("Numpad6"@.len() == 7);
    assert("Numpad6"@[0] == 'N');
    assert("Numpad6"@[3] == 'p');
    assert("Numpad6"@[6] == '6');
    assert("Numpad7"@.len() == 7);
    assert("Numpad7"@[0] == 'N');
    assert("Numpad7"@[3] == 'p');
    assert("Numpad7"@[6] == '7');
    assert("Numpad8"@.len() == 7);
    assert("Numpad8"@[0] == 'N');
    assert("Numpad8"@[3] == 'p');
    assert("Numpad8"@[6] == '8');
    assert("Numpad9"@.len() == 7);
    assert("Numpad9"@[0] == 'N');
    assert("Numpad9"@[3] == 'p');
    assert("Numpad9"@[6] == '9');
    assert("OEMAttn"@.len() == 7);
    assert("OEMAttn"@[0] == 'O');
    assert("OEMAttn"@[3] == 'A');
    assert("OEMAttn"@[4] == 't');
    assert("OEMAuto"@.len() == 7);
    assert("OEMAuto"@[0] == 'O');
    assert("OEMAuto"@[3] == 'A');
    assert("OEMAuto"@[4] == 'u');
    assert("OEMCopy"@.len() == 7);
    assert("OEMCopy"@[0] == 'O');
    assert("OEMCopy"@[3] == 'C');
    assert("OEMEnlw"@.len() == 7);
    assert("OEMEnlw"@[0] == 'O');
    assert("OEMEnlw"@[3] == 'E');
    assert("OEMJump"@.len() == 7);
    assert("OEMJump"@[0] == 'O');
    assert("OEMJump"@[3] == 'J');
    assert("OEMPlus"@.len() == 7);
    assert("OEMPlus"@[0] == 'O');
    assert("OEMPlus"@[3] == 'P');
    assert("RButton"@.len() == 7);
    assert("RButton"@[0] == 'R');
    assert("RButton"@[1] == 'B');
    assert("ROption"@.len() == 7);
    assert("ROption"@[0] == 'R');
    assert("ROption"@[1] == 'O');
    assert("UpArrow"@.len() == 7);
    assert("UpArrow"@[0] == 'U');
    assert("MicMute"@.len() == 7);
    assert("MicMute"@[0] == 'M');
    assert("MicMute"@[1] == 'i');
    assert(spec_key_of_name("Control"@) == Some(Key::Control));
    assert(spec_key_of_name("Convert"@) == Some(Key::Convert));
    assert(spec_key_of_name("Decimal"@) == Some(Key::Decimal));
    assert(spec_key_of_name("Execute"@) == Some(Key::Execute));
    assert(spec_key_of_name("Hangeul"@) == Some(Key::Hangeul));
    assert(spec_key_of_name("IcoHelp"@) == Some(Key::IcoHelp));
    assert(spec_key_of_name("LButton"@) == Some(Key::LButton));
    assert(spec_key_of_name("MButton"@) == Some(Key::MButton));
    assert(spec_key_of_name("Numlock"@) == Some(Key::Numlock));
    assert(spec_key_of_name("Numpad0"@) == Some(Key::Numpad0));
    assert(spec_key_of_name("Numpad1"@) == Some(Key::Numpad1));
    assert(spec_key_of_name("Numpad2"@) == Some(Key::Numpad2));
    assert(spec_key_of_name("Numpad3"@) == Some(Key::Numpad3));
    assert(spec_key_of_name("Numpad4"@) == Some(Key::Numpad4));
    assert(spec_key_of_name("Numpad5"@) == Some(Key::Numpad5));
    assert(spec_key_of_name("Numpad6"@) == Some(Key::Numpad6));
    assert(spec_key_of_name("Numpad7"@) == Some(Key::Numpad7));
    assert(spec_key_of_name("Numpad8"@) == Some(Key::Numpad8));
    assert(spec_key_of_name("Numpad9"@) == Some(Key::Numpad9));
    assert(spec_key_of_name("OEMAttn"@) == Some(Key::OEMAttn));
    assert(spec_key_of_name("OEMAuto"@) == Some(Key::OEMAuto));
    assert(spec_key_of_name("OEMCopy"@) == Some(Key::OEMCopy));
    assert(spec_key_of_name("OEMEnlw"@) == Some(Key::OEMEnlw));
    assert(spec_key_of_name("OEMJump"@) == Some(Key::OEMJump));
    assert(spec_key_of_name("OEMPlus"@) == Some(Key::OEMPlus));
    assert(spec_key_of_name("RButton"@) == Some(Key::RButton));
    assert(spec_key_of_name("ROption"@) == Some(Key::ROption));
    assert(spec_key_of_name("UpArrow"@) == Some(Key::UpArrow));
    assert(spec_key_of_name("MicMute"@) == Some(Key::MicMute));
}

/// Decoding inverts the canonical names of this length.
#[verifier::rlimit(50)]
proof fn lemma_key_names_len_8()
    ensures
        spec_key_of_name("CapsLock"@) == Some(Key::CapsLock),
        spec_key_of_name("DBERoman"@) == Some(Key::DBERoman),
        spec_key_of_name("DBESChar"@) == Some(Key::DBESChar),
        spec_key_of_name("Function"@) == Some(Key::Function),
        spec_key_of_name("GamepadA"@) == Some(Key::GamepadA),
        spec_key_of_name("GamepadB"@) == Some(Key::GamepadB),
        spec_key_of_name("GamepadX"@) == Some(Key::GamepadX),
        spec_key_of_name("GamepadY"@) == Some(Key::GamepadY),
        spec_key_of_name("IcoClear"@) == Some(Key::IcoClear),
        spec_key_of_name("LControl"@) == Some(Key::LControl),
        spec_key_of_name("Linefeed"@) == Some(Key::Linefeed),
        spec_key_of_name("Multiply"@) == Some(Key::Multiply),
        spec_key_of_name("OEMClear"@) == Some(Key::OEMClear),
        spec_key_of_name("OEMComma"@) == Some(Key::OEMComma),
        spec_key_of_name("OEMCusel"@) == Some(Key::OEMCusel),
        spec_key_of_name("OEMMinus"@) == Some(Key::OEMMinus),
        spec_key_of_name("OEMReset"@) == Some(Key::OEMReset),
        spec_key_of_name("PageDown"@) == Some(Key::PageDown),
        spec_key_of_name("PrintScr"@) == Some(Key::PrintScr),
        spec_key_of_name("RCommand"@) == Some(Key::RCommand),
        spec_key_of_name("RControl"@) == Some(Key::RControl),
        spec_key_of_name("Snapshot"@) == Some(Key::Snapshot),
        spec_key_of_name("Subtract"@) == Some(Key::Subtract),
        spec_key_of_name("VolumeUp"@) == Some(Key::VolumeUp),
        spec_key_of_name("XButton1"@) == Some(Key::XButton1),
        spec_key_of_name("XButton2"@) == Some(Key::XButton2),
{
    reveal_strlit("CapsLock");
    reveal_strlit("DBERoman");
    reveal_strlit("DBESChar");
    reveal_strlit("Function");
    reveal_strlit("GamepadA");
    reveal_strlit("GamepadB");
    reveal_strlit("GamepadX");
    reveal_strlit("GamepadY");
    reveal_strlit("IcoClear");
    reveal_strlit("LControl");
    reveal_strlit("Linefeed");
    reveal_strlit("Multiply");
    reveal_strlit("OEMClear");
    reveal_strlit("OEMComma");
    reveal_strlit("OEMCusel");
    reveal_strlit("OEMMinus");
    reveal_strlit("OEMReset");
    reveal_strlit("PageDown");
    reveal_strlit("PrintScr");
    reveal_strlit("RCommand");
    reveal_strlit("RControl");
    reveal_strlit("Snapshot");
    reveal_strlit("Subtract");
    reveal_strlit("VolumeUp");
    reveal_strlit("XButton1");
    reveal_strlit("XButton2");
    assert("CapsLock"@.len() == 8);
    assert("CapsLock"@[0] == 'C');
    assert("DBERoman"@.len() == 8);
    assert("DBERoman"@[0] == 'D');
    assert("DBERoman"@[3] == 'R');
    assert("DBESChar"@.len() == 8);
    assert("DBESChar"@[0] == 'D');
    assert("DBESChar"@[3] == 'S');
    assert("Function"@.len() == 8);
    assert("Function"@[0] == 'F');
    assert("GamepadA"@.len() == 8);
    assert("GamepadA"@[0] == 'G');
    assert("GamepadA"@[7] == 'A');
    assert("GamepadB"@.len() == 8);
    assert("GamepadB"@[0] == 'G');
    assert("GamepadB"@[7] == 'B');
    assert("GamepadX"@.len() == 8);
    assert("GamepadX"@[0] == 'G');
    assert("GamepadX"@[7] == 'X');
    assert("GamepadY"@.len() == 8);
    assert("GamepadY"@[0] == 'G');
    assert("GamepadY"@[7] == 'Y');
    assert("IcoClear"@.len() == 8);
    assert("IcoClear"@[0] == 'I');
    assert("LControl"@.len() == 8);
    assert("LControl"@[0] == 'L');
    assert("LControl"@[1] == 'C');
    assert("Linefeed"@.len() == 8);
    assert("Linefeed"@[0] == 'L');
    assert("Linefeed"@[1] == 'i');
    assert("Multiply"@.len() == 8);
    assert("Multiply"@[0] == 'M');
    assert("OEMClear"@.len() == 8);
    assert("OEMClear"@[0] == 'O');
    assert("OEMClear"@[3] == 'C');
    assert("OEMClear"@[4] == 'l');
    assert("OEMComma"@.len() == 8);
    assert("OEMComma"@[0] == 'O');
    assert("OEMComma"@[3] == 'C');
    assert("OEMComma"@[4] == 'o');
    assert("OEMCusel"@.len() == 8);
    assert("OEMCusel"@[0] == 'O');
    assert("OEMCusel"@[3] == 'C');
    assert("OEMCusel"@[4] == 'u');
    assert("OEMMinus"@.len() == 8);
    assert("OEMMinus"@[0] == 'O');
    assert("OEMMinus"@[3] == 'M');
    assert("OEMReset"@.len() == 8);
    assert("OEMReset"@[0] == 'O');
    assert("OEMReset"@[3] == 'R');
    assert("PageDown"@.len() == 8);
    assert("PageDown"@[0] == 'P');
    assert("PageDown"@[1] == 'a');
    assert("PrintScr"@.len() == 8);
    assert("PrintScr"@[0] == 'P');
    assert("PrintScr"@[1] == 'r');
    assert("RCommand"@.len() == 8);
    assert("RCommand"@[0] == 'R');
    assert("RCommand"@[3] == 'm');
    assert("RControl"@.len() == 8);
    assert("RControl"@[0] == 'R');
    assert("RControl"@[3] == 'n');
    assert("Snapshot"@.len() == 8);
    assert("Snapshot"@[0] == 'S');
    assert("Snapshot"@[1] == 'n');
    assert("Subtract"@.len() == 8);
    assert("Subtract"@[0] == 'S');
    assert("Subtract"@[1] == 'u');
    assert("VolumeUp"@.len() == 8);
    assert("VolumeUp"@[0] == 'V');
    assert("XButton1"@.len() == 8);
    assert("XButton1"@[0] == 'X');
    assert("XButton1"@[7] == '1');
    assert("XButton2"@.len() == 8);
    assert("XButton2"@[0] == 'X');
    assert("XButton2"@[7] == '2');
    assert(spec_key_of_name("CapsLock"@) == Some(Key::CapsLock));
    assert(spec_key_of_name("DBERoman"@) == Some(Key::DBERoman));
    assert(spec_key_of_name("DBESChar"@) == Some(Key::DBESChar));
    assert(spec_key_of_name("Function"@) == Some(Key::Function));
    assert(spec_key_of_name("GamepadA"@) == Some(Key::GamepadA));
    assert(spec_key_of_name("GamepadB"@) == Some(Key::GamepadB));
    assert(spec_key_of_name("GamepadX"@) == Some(Key::GamepadX));
    assert(spec_key_of_name("GamepadY"@) == Some(Key::GamepadY));
    assert(spec_key_of_name("IcoClear"@) == Some(Key::IcoClear));
    assert(spec_key_of_name("LControl"@) == Some(Key::LControl));
    assert(spec_key_of_name("Linefeed"@) == Some(Key::Linefeed));
    assert(spec_key_of_name("Multiply"@) == Some(Key::Multiply));
    assert(spec_key_of_name("OEMClear"@) == Some(Key::OEMClear));
    assert(spec_key_of_name("OEMComma"@) == Some(Key::OEMComma));
    assert(spec_key_of_name("OEMCusel"@) == Some(Key::OEMCusel));
    assert(spec_key_of_name("OEMMinus"@) == Some(Key::OEMMinus));
    assert(spec_key_of_name("OEMReset"@) == Some(Key::OEMReset));
    assert(spec_key_of_name("PageDown"@) == Some(Key::PageDown));
    assert(spec_key_of_name("PrintScr"@) == Some(Key::PrintScr));
    assert(spec_key_of_name("RCommand"@) == Some(Key::RCommand));
    assert(spec_key_of_name("RControl"@) == Some(Key::RControl));
    assert(spec_key_of_name("Snapshot"@) == Some(Key::Snapshot));
    assert(spec_key_of_name("Subtract"@) == Some(Key::Subtract));
    assert(spec_key_of_name("VolumeUp"@) == Some(Key::VolumeUp));
    assert(spec_key_of_name("XButton1"@) == Some(Key::XButton1));
    assert(spec_key_of_name("XButton2"@) == Some(Key::XButton2));
}

/// Decoding inverts the canonical names of this length.
#[verifier::rlimit(50)]
proof fn lemma_key_names_len_9()
    ensures
        spec_key_of_name("Backspace"@) == Some(Key::Backspace),
        spec_key_of_name("DownArrow"@) == Some(Key::DownArrow),
        spec_key_of_name("Launchpad"@) == Some(Key::Launchpad),
        spec_key_of_name("LeftArrow"@) == Some(Key::LeftArrow),
        spec_key_of_name("MediaFast"@) == Some(Key::MediaFast),
        spec_key_of_name("MediaStop"@) == Some(Key::MediaStop),
        spec_key_of_name("OEMFinish"@) == Some(Key::OEMFinish),
        spec_key_of_name("OEMFJLoya"@) == Some(Key::OEMFJLoya),
        spec_key_of_name("OEMFJRoya"@) == Some(Key::OEMFJRoya),
        spec_key_of_name("OEMPeriod"@) == Some(Key::OEMPeriod),
        spec_key_of_name("OEMWsctrl"@) == Some(Key::OEMWsctrl),
        spec_key_of_name("Separator"@) == Some(Key::Separator),
        spec_key_of_name("ShiftLock"@) == Some(Key::ShiftLock),
        spec_key_of_name("VidMirror"@) == Some(Key::VidMirror),
{
    reveal_strlit("Backspace");
    reveal_strlit("DownArrow");
    reveal_strlit("Launchpad");
    reveal_strlit("LeftArrow");
    reveal_strlit("MediaFast");
    reveal_strlit("MediaStop");
    reveal_strlit("OEMFinish");
    reveal_strlit("OEMFJLoya");
    reveal_strlit("OEMFJRoya");
    reveal_strlit("OEMPeriod");
    reveal_strlit("OEMWsctrl");
    reveal_strlit("Separator");
    reveal_strlit("ShiftLock");
    reveal_strlit("VidMirror");
    assert("Backspace"@.len() == 9);
    assert("Backspace"@[0] == 'B');
    assert("DownArrow"@.len() == 9);
    assert("DownArrow"@[0] == 'D');
    assert("Launchpad"@.len() == 9);
    assert("Launchpad"@[0] == 'L');
    assert("Launchpad"@[1] == 'a');
    assert("LeftArrow"@.len() == 9);
    assert("LeftArrow"@[0] == 'L');
    assert("LeftArrow"@[1] == 'e');
    assert("MediaFast"@.len() == 9);
    assert("MediaFast"@[0] == 'M');
    assert("MediaFast"@[5] == 'F');
    assert("MediaStop"@.len() == 9);
    assert("MediaStop"@[0] == 'M');
    assert("MediaStop"@[5] == 'S');
    assert("OEMFinish"@.len() == 9);
    assert("OEMFinish"@[0] == 'O');
    assert("OEMFinish"@[3] == 'F');
    assert("OEMFinish"@[4] == 'i');
    assert("OEMFJLoya"@.len() == 9);
    assert("OEMFJLoya"@[0] == 'O');
    assert("OEMFJLoya"@[3] == 'F');
    assert("OEMFJLoya"@[4] == 'J');
    assert("OEMFJLoya"@[5] == 'L');
    assert("OEMFJRoya"@.len() == 9);
    assert("OEMFJRoya"@[0] == 'O');
    assert("OEMFJRoya"@[3] == 'F');
    assert("OEMFJRoya"@[4] == 'J');
    assert("OEMFJRoya"@[5] == 'R');
    assert("OEMPeriod"@.len() == 9);
    assert("OEMPeriod"@[0] == 'O');
    assert("OEMPeriod"@[3] == 'P');
    assert("OEMWsctrl"@.len() == 9);
    assert("OEMWsctrl"@[0] == 'O');
    assert("OEMWsctrl"@[3] == 'W');
    assert("Separator"@.len() == 9);
    assert("Separator"@[0] == 'S');
    assert("Separator"@[1] == 'e');
    assert("ShiftLock"@.len() == 9);
    assert("ShiftLock"@[0] == 'S');
    assert("ShiftLock"@[1] == 'h');
    assert("VidMirror"@.len() == 9);
    assert("VidMirror"@[0] == 'V');
    assert(spec_key_of_name("Backspace"@) == Some(Key::Backspace));
    assert(spec_key_of_name("DownArrow"@) == Some(Key::DownArrow));
    assert(spec_key_of_name("Launchpad"@) == Some(Key::Launchpad));
    assert(spec_key_of_name("LeftArrow"@) == Some(Key::LeftArrow));
    assert(spec_key_of_name("MediaFast"@) == Some(Key::MediaFast));
    assert(spec_key_of_name("MediaStop"@) == Some(Key::MediaStop));
    assert(spec_key_of_name("OEMFinish"@) == Some(Key::OEMFinish));
    assert(spec_key_of_name("OEMFJLoya"@) == Some(Key::OEMFJLoya));
    assert(spec_key_of_name("OEMFJRoya"@) == Some(Key::OEMFJRoya));
    assert(spec_key_of_name("OEMPeriod"@) == Some(Key::OEMPeriod));
    assert(spec_key_of_name("OEMWsctrl"@) == Some(Key::OEMWsctrl));
    assert(spec_key_of_name("Separator"@) == Some(Key::Separator));
    assert(spec_key_of_name("ShiftLock"@) == Some(Key::ShiftLock));
    assert(spec_key_of_name("VidMirror"@) == Some(Key::VidMirror));
}

/// Decoding inverts the canonical names of this length.
#[verifier::rlimit(50)]
proof fn lemma_key_names_len_10()
    ensures
        spec_key_of_name("ContrastUp"@) == Some(Key::ContrastUp),
        spec_key_of_name("DBENoRoman"@) == Some(Key::DBENoRoman),
        spec_key_of_name("LaunchApp1"@) == Some(Key::LaunchApp1),
        spec_key_of_name("LaunchApp2"@) == Some(Key::LaunchApp2),
        spec_key_of_name("LaunchMail"@) == Some(Key::LaunchMail),
        spec_key_of_name("ModeChange"@) == Some(Key::ModeChange),
        spec_key_of_name("NonConvert"@) == Some(Key::NonConvert),
        spec_key_of_name("OEMBacktab"@) == Some(Key::OEMBacktab),
        spec_key_of_name("OEMFJJisho"@) == Some(Key::OEMFJJisho),
        spec_key_of_name("Processkey"@) == Some(Key::Processkey),
        spec_key_of_name("RightArrow"@) == Some(Key::RightArrow),
        spec_key_of_name("ScrollLock"@) == Some(Key::ScrollLock),
        spec_key_of_name("VolumeDown"@) == Some(Key::VolumeDown),
        spec_key_of_name("VolumeMute"@) == Some(Key::VolumeMute),
{
    reveal_strlit("ContrastUp");
    reveal_strlit("DBENoRoman");
    reveal_strlit("LaunchApp1");
    reveal_strlit("LaunchApp2");
    reveal_strlit("LaunchMail");
    reveal_strlit("ModeChange");
    reveal_strlit("NonConvert");
    reveal_strlit("OEMBacktab");
    reveal_strlit("OEMFJJisho");
    reveal_strlit("Processkey");
    reveal_strlit("RightArrow");
    reveal_strlit("ScrollLock");
    reveal_strlit("VolumeDown");
    reveal_strlit("VolumeMute");
    assert("ContrastUp"@.len() == 10);
    assert("ContrastUp"@[0] == 'C');
    assert("DBENoRoman"@.len() == 10);
    assert("DBENoRoman"@[0] == 'D');
    assert("LaunchApp1"@.len() == 10);
    assert("LaunchApp1"@[0] == 'L');
    assert("LaunchApp1"@[6] == 'A');
    assert("LaunchApp1"@[9] == '1');
    assert("LaunchApp2"@.len() == 10);
    assert("LaunchApp2"@[0] == 'L');
    assert("LaunchApp2"@[6] == 'A');
    assert("LaunchApp2"@[9] == '2');
    assert("LaunchMail"@.len() == 10);
    assert("LaunchMail"@[0] == 'L');
    assert("LaunchMail"@[6] == 'M');
    assert("ModeChange"@.len() == 10);
    assert("ModeChange"@[0] == 'M');
    assert("NonConvert"@.len() == 10);
    assert("NonConvert"@[0] == 'N');
    assert("OEMBacktab"@.len() == 10);
    assert("OEMBacktab"@[0] == 'O');
    assert("OEMBacktab"@[3] == 'B');
    assert("OEMFJJisho"@.len() == 10);
    assert("OEMFJJisho"@[0] == 'O');
    assert("OEMFJJisho"@[3] == 'F');
    assert("Processkey"@.len() == 10);
    assert("Processkey"@[0] == 'P');
    assert("RightArrow"@.len() == 10);
    assert("RightArrow"@[0] == 'R');
    assert("ScrollLock"@.len() == 10);
    assert("ScrollLock"@[0] == 'S');
    assert("VolumeDown"@.len() == 10);
    assert("VolumeDown"@[0] == 'V');
    assert("VolumeDown"@[6] == 'D');
    assert("VolumeMute"@.len() == 10);
    assert("VolumeMute"@[0] == 'V');
    assert("VolumeMute"@[6] == 'M');
    assert(spec_key_of_name("ContrastUp"@) == Some(Key::ContrastUp));
    assert(spec_key_of_name("DBENoRoman"@) == Some(Key::DBENoRoman));
    assert(spec_key_of_name("LaunchApp1"@) == Some(Key::LaunchApp1));
    assert(spec_key_of_name("LaunchApp2"@) == Some(Key::LaunchApp2));
    assert(spec_key_of_name("LaunchMail"@) == Some(Key::LaunchMail));
    assert(spec_key_of_name("ModeChange"@) == Some(Key::ModeChange));
    assert(spec_key_of_name("NonConvert"@) == Some(Key::NonConvert));
    assert(spec_key_of_name("OEMBacktab"@) == Some(Key::OEMBacktab));
    assert(spec_key_of_name("OEMFJJisho"@) == Some(Key::OEMFJJisho));
    assert(spec_key_of_name("Processkey"@) == Some(Key::Processkey));
    assert(spec_key_of_name("RightArrow"@) == Some(Key::RightArrow));
    assert(spec_key_of_name("ScrollLock"@) == Some(Key::ScrollLock));
    assert(spec_key_of_name("VolumeDown"@) == Some(Key::VolumeDown));
    assert(spec_key_of_name("VolumeMute"@) == Some(Key::VolumeMute));
}

/// Decoding inverts the canonical names of this length.
#[verifier::rlimit(50)]
proof fn lemma_key_names_len_11()
    ensures
        spec_key_of_name("BrowserBack"@) == Some(Key::BrowserBack),
        spec_key_of_name("BrowserHome"@) == Some(Key::BrowserHome),
        spec_key_of_name("BrowserStop"@) == Some(Key::BrowserStop),
        spec_key_of_name("DBEHiragana"@) == Some(Key::DBEHiragana),
        spec_key_of_name("DBEKatakana"@) == Some(Key::DBEKatakana),
        spec_key_of_name("DBESBCSChar"@) == Some(Key::DBESBCSChar),
        spec_key_of_name("GamepadMenu"@) == Some(Key::GamepadMenu),
        spec_key_of_name("GamepadView"@) == Some(Key::GamepadView),
        spec_key_of_name("LaunchPanel"@) == Some(Key::LaunchPanel),
        spec_key_of_name("MediaRewind"@) == Some(Key::MediaRewind),
        spec_key_of_name("OEMNECEqual"@) == Some(Key::OEMNECEqual),
{
    reveal_strlit("BrowserBack");
    reveal_strlit("BrowserHome");
    reveal_strlit("BrowserStop");
    reveal_strlit("DBEHiragana");
    reveal_strlit("DBEKatakana");
    reveal_strlit("DBESBCSChar");
    reveal_strlit("GamepadMenu");
    reveal_strlit("GamepadView");
    reveal_strlit("LaunchPanel");
    reveal_strlit("MediaRewind");
    reveal_strlit("OEMNECEqual");
    assert("BrowserBack"@.len() == 11);
    assert("BrowserBack"@[0] == 'B');
    assert("BrowserBack"@[7] == 'B');
    assert("BrowserHome"@.len() == 11);
    assert("BrowserHome"@[0] == 'B');
    assert("BrowserHome"@[7] == 'H');
    assert("BrowserStop"@.len() == 11);
    assert("BrowserStop"@[0] == 'B');
    assert("BrowserStop"@[7] == 'S');
    assert("DBEHiragana"@.len() == 11);
    assert("DBEHiragana"@[0] == 'D');
    assert("DBEHiragana"@[3] == 'H');
    assert("DBEKatakana"@.len() == 11);
    assert("DBEKatakana"@[0] == 'D');
    assert("DBEKatakana"@[3] == 'K');
    assert("DBESBCSChar"@.len() == 11);
    assert("DBESBCSChar"@[0] == 'D');
    assert("DBESBCSChar"@[3] == 'S');
    assert("GamepadMenu"@.len() == 11);
    assert("GamepadMenu"@[0] == 'G');
    assert("GamepadMenu"@[7] == 'M');
    assert("GamepadView"@.len() == 11);
    assert("GamepadView"@[0] == 'G');
    assert("GamepadView"@[7] == 'V');
    assert("LaunchPanel"@.len() == 11);
    assert("LaunchPanel"@[0] == 'L');
    assert("MediaRewind"@.len() == 11);
    assert("MediaRewind"@[0] == 'M');
    assert("OEMNECEqual"@.len() == 11);
    assert("OEMNECEqual"@[0] == 'O');
    assert(spec_key_of_name("BrowserBack"@) == Some(Key::BrowserBack));
    assert(spec_key_of_name("BrowserHome"@) == Some(Key::BrowserHome));
    assert(spec_key_of_name("BrowserStop"@) == Some(Key::BrowserStop));
    assert(spec_key_of_name("DBEHiragana"@) == Some(Key::DBEHiragana));
    assert(spec_key_of_name("DBEKatakana"@) == Some(Key::DBEKatakana));
    assert(spec_key_of_name("DBESBCSChar"@) == Some(Key::DBESBCSChar));
    assert(spec_key_of_name("GamepadMenu"@) == Some(Key::GamepadMenu));
    assert(spec_key_of_name("GamepadView"@) == Some(Key::GamepadView));
    assert(spec_key_of_name("LaunchPanel"@) == Some(Key::LaunchPanel));
    assert(spec_key_of_name("MediaRewind"@) == Some(Key::MediaRewind));
    assert(spec_key_of_name("OEMNECEqual"@) == Some(Key::OEMNECEqual));
}

/// Decoding inverts the canonical names of this length.
#[verifier::rlimit(50)]
proof fn lemma_key_names_len_12()
    ensures
        spec_key_of_name("BrightnessUp"@) == Some(Key::BrightnessUp),
        spec_key_of_name("ContrastDown"@) == Some(Key::ContrastDown),
        spec_key_of_name("DBECodeinput"@) == Some(Key::DBECodeinput),
        spec_key_of_name("NavigationUp"@) == Some(Key::NavigationUp),
        spec_key_of_name("OEMFJMasshou"@) == Some(Key::OEMFJMasshou),
        spec_key_of_name("OEMFJTouroku"@) == Some(Key::OEMFJTouroku),
        spec_key_of_name("ScriptSwitch"@) == Some(Key::ScriptSwitch),
{
    reveal_strlit("BrightnessUp");
    reveal_strlit("ContrastDown");
    reveal_strlit("DBECodeinput");
    reveal_strlit("NavigationUp");
    reveal_strlit("OEMFJMasshou");
    reveal_strlit("OEMFJTouroku");
    reveal_strlit("ScriptSwitch");
    assert("BrightnessUp"@.len() == 12);
    assert("BrightnessUp"@[0] == 'B');
    assert("ContrastDown"@.len() == 12);
    assert("ContrastDown"@[0] == 'C');
    assert("DBECodeinput"@.len() == 12);
    assert("DBECodeinput"@[0] == 'D');
    assert("NavigationUp"@.len() == 12);
    assert("NavigationUp"@[0] == 'N');
    assert("OEMFJMasshou"@.len() == 12);
    assert("OEMFJMasshou"@[0] == 'O');
    assert("OEMFJMasshou"@[5] == 'M');
    assert("OEMFJTouroku"@.len() == 12);
    assert("OEMFJTouroku"@[0] == 'O');
    assert("OEMFJTouroku"@[5] == 'T');
    assert("ScriptSwitch"@.len() == 12);
    assert("ScriptSwitch"@[0] == 'S');
    assert(spec_key_of_name("BrightnessUp"@) == Some(Key::BrightnessUp));
    assert(spec_key_of_name("ContrastDown"@) == Some(Key::ContrastDown));
    assert(spec_key_of_name("DBECodeinput"@) == Some(Key::DBECodeinput));
    assert(spec_key_of_name("NavigationUp"@) == Some(Key::NavigationUp));
    assert(spec_key_of_name("OEMFJMasshou"@) == Some(Key::OEMFJMasshou));
    assert(spec_key_of_name("OEMFJTouroku"@) == Some(Key::OEMFJTouroku));
    assert(spec_key_of_name("ScriptSwitch"@) == Some(Key::ScriptSwitch));
}

/// Decoding inverts the canonical names of this length.
#[verifier::rlimit(50)]
proof fn lemma_key_names_len_13()
    ensures
        spec_key_of_name("BrowserSearch"@) == Some(Key::BrowserSearch),
        spec_key_of_name("GamepadDPadUp"@) == Some(Key::GamepadDPadUp),
{
    reveal_strlit("BrowserSearch");
    reveal_strlit("GamepadDPadUp");
    assert("BrowserSearch"@.len() == 13);
    assert("BrowserSearch"@[0] == 'B');
    assert("GamepadDPadUp"@.len() == 13);
    assert("GamepadDPadUp"@[0] == 'G');
    assert(spec_key_of_name("BrowserSearch"@) == Some(Key::BrowserSearch));
    assert(spec_key_of_name("GamepadDPadUp"@) == Some(Key::GamepadDPadUp));
}

/// Decoding inverts the canonical names of this length.
#[verifier::rlimit(50)]
proof fn lemma_key_names_len_14()
    ensures
        spec_key_of_name("BrightnessDown"@) == Some(Key::BrightnessDown),
        spec_key_of_name("BrowserForward"@) == Some(Key::BrowserForward),
        spec_key_of_name("BrowserRefresh"@) == Some(Key::BrowserRefresh),
        spec_key_of_name("DBEFlushString"@) == Some(Key::DBEFlushString),
        spec_key_of_name("DBENoCodepoint"@) == Some(Key::DBENoCodepoint),
        spec_key_of_name("IlluminationUp"@) == Some(Key::IlluminationUp),
        spec_key_of_name("MediaNextTrack"@) == Some(Key::MediaNextTrack),
        spec_key_of_name("MediaPlayPause"@) == Some(Key::MediaPlayPause),
        spec_key_of_name("MediaPrevTrack"@) == Some(Key::MediaPrevTrack),
        spec_key_of_name("MissionControl"@) == Some(Key::MissionControl),
        spec_key_of_name("NavigationDown"@) == Some(Key::NavigationDown),
        spec_key_of_name("NavigationLeft"@) == Some(Key::NavigationLeft),
        spec_key_of_name("NavigationMenu"@) == Some(Key::NavigationMenu),
        spec_key_of_name("NavigationView"@) == Some(Key::NavigationView),
{
    reveal_strlit("BrightnessDown");
    reveal_strlit("BrowserForward");
    reveal_strlit("BrowserRefresh");
    reveal_strlit("DBEFlushString");
    reveal_strlit("DBENoCodepoint");
    reveal_strlit("IlluminationUp");
    reveal_strlit("MediaNextTrack");
    reveal_strlit("MediaPlayPause");
    reveal_strlit("MediaPrevTrack");
    reveal_strlit("MissionControl");
    reveal_strlit("NavigationDown");
    reveal_strlit("NavigationLeft");
    reveal_strlit("NavigationMenu");
    reveal_strlit("NavigationView");
    assert("BrightnessDown"@.len() == 14);
    assert("BrightnessDown"@[0] == 'B');
    assert("BrightnessDown"@[2] == 'i');
    assert("BrowserForward"@.len() == 14);
    assert("BrowserForward"@[0] == 'B');
    assert("BrowserForward"@[2] == 'o');
    assert("BrowserForward"@[7] == 'F');
    assert("BrowserRefresh"@.len() == 14);
    assert("BrowserRefresh"@[0] == 'B');
    assert("BrowserRefresh"@[2] == 'o');
    assert("BrowserRefresh"@[7] == 'R');
    assert("DBEFlushString"@.len() == 14);
    assert("DBEFlushString"@[0] == 'D');
    assert("DBEFlushString"@[3] == 'F');
    assert("DBENoCodepoint"@.len() == 14);
    assert("DBENoCodepoint"@[0] == 'D');
    assert("DBENoCodepoint"@[3] == 'N');
    assert("IlluminationUp"@.len() == 14);
    assert("IlluminationUp"@[0] == 'I');
    assert("MediaNextTrack"@.len() == 14);
    assert("MediaNextTrack"@[0] == 'M');
    assert("MediaNextTrack"@[1] == 'e');
    assert("MediaNextTrack"@[5] == 'N');
    assert("MediaPlayPause"@.len() == 14);
    assert("MediaPlayPause"@[0] == 'M');
    assert("MediaPlayPause"@[1] == 'e');
    assert("MediaPlayPause"@[5] == 'P');
    assert("MediaPlayPause"@[6] == 'l');
    assert("MediaPrevTrack"@.len() == 14);
    assert("MediaPrevTrack"@[0] == 'M');
    assert("MediaPrevTrack"@[1] == 'e');
    assert("MediaPrevTrack"@[5] == 'P');
    assert("MediaPrevTrack"@[6] == 'r');
    assert("MissionControl"@.len() == 14);
    assert("MissionControl"@[0] == 'M');
    assert("MissionControl"@[1] == 'i');
    assert("NavigationDown"@.len() == 14);
    assert("NavigationDown"@[0] == 'N');
    assert("NavigationDown"@[10] == 'D');
    assert("NavigationLeft"@.len() == 14);
    assert("NavigationLeft"@[0] == 'N');
    assert("NavigationLeft"@[10] == 'L');
    assert("NavigationMenu"@.len() == 14);
    assert("NavigationMenu"@[0] == 'N');
    assert("NavigationMenu"@[10] == 'M');
    assert("NavigationView"@.len() == 14);
    assert("NavigationView"@[0] == 'N');
    assert("NavigationView"@[10] == 'V');
    assert(spec_key_of_name("BrightnessDown"@) == Some(Key::BrightnessDown));
    assert(spec_key_of_name("BrowserForward"@) == Some(Key::BrowserForward));
    assert(spec_key_of_name("BrowserRefresh"@) == Some(Key::BrowserRefresh));
    assert(spec_key_of_name("DBEFlushString"@) == Some(Key::DBEFlushString));
    assert(spec_key_of_name("DBENoCodepoint"@) == Some(Key::DBENoCodepoint));
    assert(spec_key_of_name("IlluminationUp"@) == Some(Key::IlluminationUp));
    assert(spec_key_of_name("MediaNextTrack"@) == Some(Key::MediaNextTrack));
    assert(spec_key_of_name("MediaPlayPause"@) == Some(Key::MediaPlayPause));
    assert(spec_key_of_name("MediaPrevTrack"@) == Some(Key::MediaPrevTrack));
    assert(spec_key_of_name("MissionControl"@) == Some(Key::MissionControl));
    assert(spec_key_of_name("NavigationDown"@) == Some(Key::NavigationDown));
    assert(spec_key_of_name("NavigationLeft"@) == Some(Key::NavigationLeft));
    assert(spec_key_of_name("NavigationMenu"@) == Some(Key::NavigationMenu));
    assert(spec_key_of_name("NavigationView"@) == Some(Key::NavigationView));
}

/// Decoding inverts the canonical names of this length.
#[verifier::rlimit(50)]
proof fn lemma_key_names_len_15()
    ensures
        spec_key_of_name("DBEAlphanumeric"@) == Some(Key::DBEAlphanumeric),
        spec_key_of_name("GamepadDPadDown"@) == Some(Key::GamepadDPadDown),
        spec_key_of_name("GamepadDPadLeft"@) == Some(Key::GamepadDPadLeft),
        spec_key_of_name("NavigationRight"@) == Some(Key::NavigationRight),
{
    reveal_strlit("DBEAlphanumeric");
    reveal_strlit("GamepadDPadDown");
    reveal_strlit("GamepadDPadLeft");
    reveal_strlit("NavigationRight");
    assert("DBEAlphanumeric"@.len() == 15);
    assert("DBEAlphanumeric"@[0] == 'D');
    assert("GamepadDPadDown"@.len() == 15);
    assert("GamepadDPadDown"@[0] == 'G');
    assert("GamepadDPadDown"@[11] == 'D');
    assert("GamepadDPadLeft"@.len() == 15);
    assert("GamepadDPadLeft"@[0] == 'G');
    assert("GamepadDPadLeft"@[11] == 'L');
    assert("NavigationRight"@.len() == 15);
    assert("NavigationRight"@[0] == 'N');
    assert(spec_key_of_name("DBEAlphanumeric"@) == Some(Key::DBEAlphanumeric));
    assert(spec_key_of_name("GamepadDPadDown"@) == Some(Key::GamepadDPadDown));
    assert(spec_key_of_name("GamepadDPadLeft"@) == Some(Key::GamepadDPadLeft));
    assert(spec_key_of_name("NavigationRight"@) == Some(Key::NavigationRight));
}

/// Decoding inverts the canonical names of this length.
#[verifier::rlimit(50)]
proof fn lemma_key_names_len_16()
    ensures
        spec_key_of_name("BrowserFavorites"@) == Some(Key::BrowserFavorites),
        spec_key_of_name("GamepadDPadRight"@) == Some(Key::GamepadDPadRight),
        spec_key_of_name("IlluminationDown"@) == Some(Key::IlluminationDown),
        spec_key_of_name("NavigationAccept"@) == Some(Key::NavigationAccept),
        spec_key_of_name("NavigationCancel"@) == Some(Key::NavigationCancel),
{
    reveal_strlit("BrowserFavorites");
    reveal_strlit("GamepadDPadRight");
    reveal_strlit("IlluminationDown");
    reveal_strlit("NavigationAccept");
    reveal_strlit("NavigationCancel");
    assert("BrowserFavorites"@.len() == 16);
    assert("BrowserFavorites"@[0] == 'B');
    assert("GamepadDPadRight"@.len() == 16);
    assert("GamepadDPadRight"@[0] == 'G');
    assert("IlluminationDown"@.len() == 16);
    assert("IlluminationDown"@[0] == 'I');
    assert("NavigationAccept"@.len() == 16);
    assert("NavigationAccept"@[0] == 'N');
    assert("NavigationAccept"@[10] == 'A');
    assert("NavigationCancel"@.len() == 16);
    assert("NavigationCancel"@[0] == 'N');
    assert("NavigationCancel"@[10] == 'C');
    assert(spec_key_of_name("BrowserFavorites"@) == Some(Key::BrowserFavorites));
    assert(spec_key_of_name("GamepadDPadRight"@) == Some(Key::GamepadDPadRight));
    assert(spec_key_of_name("IlluminationDown"@) == Some(Key::IlluminationDown));
    assert(spec_key_of_name("NavigationAccept"@) == Some(Key::NavigationAccept));
    assert(spec_key_of_name("NavigationCancel"@) == Some(Key::NavigationCancel));
}

/// Decoding inverts the canonical names of this length.
#[verifier::rlimit(50)]
proof fn lemma_key_names_len_17()
    ensures
        spec_key_of_name("LaunchMediaSelect"@) == Some(Key::LaunchMediaSelect),
{
    reveal_strlit("LaunchMediaSelect");
    assert("LaunchMediaSelect"@.len() == 17);
    assert(spec_key_of_name("LaunchMediaSelect"@) == Some(Key::LaunchMediaSelect));
}

/// Decoding inverts the canonical names of this length.
#[verifier::rlimit(50)]
proof fn lemma_key_names_len_18()
    ensures
        spec_key_of_name("DBEDetermineString"@) == Some(Key::DBEDetermineString),
        spec_key_of_name("GamepadLeftTrigger"@) == Some(Key::GamepadLeftTrigger),
        spec_key_of_name("IlluminationToggle"@) == Some(Key::IlluminationToggle),
{
    reveal_strlit("DBEDetermineString");
    reveal_strlit("GamepadLeftTrigger");
    reveal_strlit("IlluminationToggle");
    assert("DBEDetermineString"@.len() == 18);
    assert("DBEDetermineString"@[0] == 'D');
    assert("GamepadLeftTrigger"@.len() == 18);
    assert("GamepadLeftTrigger"@[0] == 'G');
    assert("IlluminationToggle"@.len() == 18);
    assert("IlluminationToggle"@[0] == 'I');
    assert(spec_key_of_name("DBEDetermineString"@) == Some(Key::DBEDetermineString));
    assert(spec_key_of_name("GamepadLeftTrigger"@) == Some(Key::GamepadLeftTrigger));
    assert(spec_key_of_name("IlluminationToggle"@) == Some(Key::IlluminationToggle));
}

/// Decoding inverts the canonical names of this length.
#[verifier::rlimit(50)]
proof fn lemma_key_names_len_19()
    ensures
        spec_key_of_name("GamepadLeftShoulder"@) == Some(Key::GamepadLeftShoulder),
        spec_key_of_name("GamepadRightTrigger"@) == Some(Key::GamepadRightTrigger),
{
    reveal_strlit("GamepadLeftShoulder");
    reveal_strlit("GamepadRightTrigger");
    assert("GamepadLeftShoulder"@.len() == 19);
    assert("GamepadLeftShoulder"@[7] == 'L');
    assert("GamepadRightTrigger"@.len() == 19);
    assert("GamepadRightTrigger"@[7] == 'R');
    assert(spec_key_of_name("GamepadLeftShoulder"@) == Some(Key::GamepadLeftShoulder));
    assert(spec_key_of_name("GamepadRightTrigger"@) == Some(Key::GamepadRightTrigger));
}

/// Decoding inverts the canonical names of this length.
#[verifier::rlimit(50)]
proof fn lemma_key_names_len_20()
    ensures
        spec_key_of_name("GamepadRightShoulder"@) == Some(Key::GamepadRightShoulder),
{
    reveal_strlit("GamepadRightShoulder");
    assert("GamepadRightShoulder"@.len() == 20);
    assert(spec_key_of_name("GamepadRightShoulder"@) == Some(Key::GamepadRightShoulder));
}

/// Decoding inverts the canonical names of this length.
#[verifier::rlimit(50)]
proof fn lemma_key_names_len_21()
    ensures
        spec_key_of_name("DBEEnterIMEConfigMode"@) == Some(Key::DBEEnterIMEConfigMode),
{
    reveal_strlit("DBEEnterIMEConfigMode");
    assert("DBEEnterIMEConfigMode"@.len() == 21);
    assert(spec_key_of_name("DBEEnterIMEConfigMode"@) == Some(Key::DBEEnterIMEConfigMode));
}

/// Decoding inverts the canonical names of this length.
#[verifier::rlimit(50)]
proof fn lemma_key_names_len_23()
    ensures
        spec_key_of_name("GamepadLeftThumbstickUp"@) == Some(Key::GamepadLeftThumbstickUp),
{
    reveal_strlit("GamepadLeftThumbstickUp");
    assert("GamepadLeftThumbstickUp"@.len() == 23);
    assert(spec_key_of_name("GamepadLeftThumbstickUp"@) == Some(Key::GamepadLeftThumbstickUp));
}

/// Decoding inverts the canonical names of this length.
#[verifier::rlimit(50)]
proof fn lemma_key_names_len_24()
    ensures
        spec_key_of_name("DBEEnterWordRegisterMode"@) == Some(Key::DBEEnterWordRegisterMode),
        spec_key_of_name("GamepadRightThumbstickUp"@) == Some(Key::GamepadRightThumbstickUp),
{
    reveal_strlit("DBEEnterWordRegisterMode");
    reveal_strlit("GamepadRightThumbstickUp");
    assert("DBEEnterWordRegisterMode"@.len() == 24);
    assert("DBEEnterWordRegisterMode"@[0] == 'D');
    assert("GamepadRightThumbstickUp"@.len() == 24);
    assert("GamepadRightThumbstickUp"@[0] == 'G');
    assert(spec_key_of_name("DBEEnterWordRegisterMode"@) == Some(Key::DBEEnterWordRegisterMode));
    assert(spec_key_of_name("GamepadRightThumbstickUp"@) == Some(Key::GamepadRightThumbstickUp));
}

/// Decoding inverts the canonical names of this length.
#[verifier::rlimit(50)]
proof fn lemma_key_names_len_25()
    ensures
        spec_key_of_name("DBEEnterDLGConversionMode"@) == Some(Key::DBEEnterDLGConversionMode),
        spec_key_of_name("GamepadLeftThumbstickDown"@) == Some(Key::GamepadLeftThumbstickDown),
        spec_key_of_name("GamepadLeftThumbstickLeft"@) == Some(Key::GamepadLeftThumbstickLeft),
{
    reveal_strlit("DBEEnterDLGConversionMode");
    reveal_strlit("GamepadLeftThumbstickDown");
    reveal_strlit("GamepadLeftThumbstickLeft");
    assert("DBEEnterDLGConversionMode"@.len() == 25);
    assert("DBEEnterDLGConversionMode"@[0] == 'D');
    assert("GamepadLeftThumbstickDown"@.len() == 25);
    assert("GamepadLeftThumbstickDown"@[0] == 'G');
    assert("GamepadLeftThumbstickDown"@[21] == 'D');
    assert("GamepadLeftThumbstickLeft"@.len() == 25);
    assert("GamepadLeftThumbstickLeft"@[0] == 'G');
    assert("GamepadLeftThumbstickLeft"@[21] == 'L');
    assert(spec_key_of_name("DBEEnterDLGConversionMode"@) == Some(Key::DBEEnterDLGConversionMode));
    assert(spec_key_of_name("GamepadLeftThumbstickDown"@) == Some(Key::GamepadLeftThumbstickDown));
    assert(spec_key_of_name("GamepadLeftThumbstickLeft"@) == Some(Key::GamepadLeftThumbstickLeft));
}

/// Decoding inverts the canonical names of this length.
#[verifier::rlimit(50)]
proof fn lemma_key_names_len_26()
    ensures
        spec_key_of_name("GamepadLeftThumbstickRight"@) == Some(Key::GamepadLeftThumbstickRight),
        spec_key_of_name("GamepadRightThumbstickDown"@) == Some(Key::GamepadRightThumbstickDown),
        spec_key_of_name("GamepadRightThumbstickLeft"@) == Some(Key::GamepadRightThumbstickLeft),
{
    reveal_strlit("GamepadLeftThumbstickRight");
    reveal_strlit("GamepadRightThumbstickDown");
    reveal_strlit("GamepadRightThumbstickLeft");
    assert("GamepadLeftThumbstickRight"@.len() == 26);
    assert("GamepadLeftThumbstickRight"@[7] == 'L');
    assert("GamepadRightThumbstickDown"@.len() == 26);
    assert("GamepadRightThumbstickDown"@[7] == 'R');
    assert("GamepadRightThumbstickDown"@[22] == 'D');
    assert("GamepadRightThumbstickLeft"@.len() == 26);
    assert("GamepadRightThumbstickLeft"@[7] == 'R');
    assert("GamepadRightThumbstickLeft"@[22] == 'L');
    assert(spec_key_of_name("GamepadLeftThumbstickRight"@) == Some(Key::GamepadLeftThumbstickRight));
    assert(spec_key_of_name("GamepadRightThumbstickDown"@) == Some(Key::GamepadRightThumbstickDown));
    assert(spec_key_of_name("GamepadRightThumbstickLeft"@) == Some(Key::GamepadRightThumbstickLeft));
}

/// Decoding inverts the canonical names of this length.
#[verifier::rlimit(50)]
proof fn lemma_key_names_len_27()
    ensures
        spec_key_of_name("GamepadLeftThumbstickButton"@) == Some(Key::GamepadLeftThumbstickButton),
        spec_key_of_name("GamepadRightThumbstickRight"@) == Some(Key::GamepadRightThumbstickRight),
{
    reveal_strlit("GamepadLeftThumbstickButton");
    reveal_strlit("GamepadRightThumbstickRight");
    assert("GamepadLeftThumbstickButton"@.len() == 27);
    assert("GamepadLeftThumbstickButton"@[7] == 'L');
    assert("GamepadRightThumbstickRight"@.len() == 27);
    assert("GamepadRightThumbstickRight"@[7] == 'R');
    assert(spec_key_of_name("GamepadLeftThumbstickButton"@) == Some(Key::GamepadLeftThumbstickButton));
    assert(spec_key_of_name("GamepadRightThumbstickRight"@) == Some(Key::GamepadRightThumbstickRight));
}

/// Decoding inverts the canonical names of this length.
#[verifier::rlimit(50)]
proof fn lemma_key_names_len_28()
    ensures
        spec_key_of_name("GamepadRightThumbstickButton"@) == Some(Key::GamepadRightThumbstickButton),
{
    reveal_strlit("GamepadRightThumbstickButton");
    assert("GamepadRightThumbstickButton"@.len() == 28);
    assert(spec_key_of_name("GamepadRightThumbstickButton"@) == Some(Key::GamepadRightThumbstickButton));
}

/// Decoding a payload-free key's canonical wire name yields that key back.
#[verifier::rlimit(100)]
pub proof fn lemma_key_name_round_trip(k: Key)
    requires
        key_is_unit(k),
    ensures
        spec_key_of_name(spec_key_name(k)) == Some(k),
{
    match k {
        Key::Num0 => lemma_key_names_len_4(),
        Key::Num1 => lemma_key_names_len_4(),
        Key::Num2 => lemma_key_names_len_4(),
        Key::Num3 => lemma_key_names_len_4(),
        Key::Num4 => lemma_key_names_len_4(),
        Key::Num5 => lemma_key_names_len_4(),
        Key::Num6 => lemma_key_names_len_4(),
        Key::Num7 => lemma_key_names_len_4(),
        Key::Num8 => lemma_key_names_len_4(),
        Key::Num9 => lemma_key_names_len_4(),
        Key::A => lemma_key_names_len_1(),
        Key::B => lemma_key_names_len_1(),
        Key::C => lemma_key_names_len_1(),
        Key::D => lemma_key_names_len_1(),
        Key::E => lemma_key_names_len_1(),
        Key::F => lemma_key_names_len_1(),
        Key::G => lemma_key_names_len_1(),
        Key::H => lemma_key_names_len_1(),
        Key::I => lemma_key_names_len_1(),
        Key::J => lemma_key_names_len_1(),
        Key::K => lemma_key_names_len_1(),
        Key::L => lemma_key_names_len_1(),
        Key::M => lemma_key_names_len_1(),
        Key::N => lemma_key_names_len_1(),
        Key::O => lemma_key_names_len_1(),
        Key::P => lemma_key_names_len_1(),
        Key::Q => lemma_key_names_len_1(),
        Key::R => lemma_key_names_len_1(),
        Key::S => lemma_key_names_len_1(),
        Key::T => lemma_key_names_len_1(),
        Key::U => lemma_key_names_len_1(),
        Key::V => lemma_key_names_len_1(),
        Key::W => lemma_key_names_len_1(),
        Key::X => lemma_key_names_len_1(),
        Key::Y => lemma_key_names_len_1(),
        Key::Z => lemma_key_names_len_1(),
        Key::AbntC1 => lemma_key_names_len_6(),
        Key::AbntC2 => lemma_key_names_len_6(),
        Key::Accept => lemma_key_names_len_6(),
        Key::Add => lemma_key_names_len_3(),
        Key::Alt => lemma_key_names_len_3(),
        Key::Apps => lemma_key_names_len_4(),
        Key::Attn => lemma_key_names_len_4(),
        Key::Backspace => lemma_key_names_len_9(),
        Key::Break => lemma_key_names_len_5(),
        Key::Begin => lemma_key_names_len_5(),
        Key::BrightnessDown => lemma_key_names_len_14(),
        Key::BrightnessUp => lemma_key_names_len_12(),
        Key::BrowserBack => lemma_key_names_len_11(),
        Key::BrowserFavorites => lemma_key_names_len_16(),
        Key::BrowserForward => lemma_key_names_len_14(),
        Key::BrowserHome => lemma_key_names_len_11(),
        Key::BrowserRefresh => lemma_key_names_len_14(),
        Key::BrowserSearch => lemma_key_names_len_13(),
        Key::BrowserStop => lemma_key_names_len_11(),
        Key::Cancel => lemma_key_names_len_6(),
        Key::CapsLock => lemma_key_names_len_8(),
        Key::Clear => lemma_key_names_len_5(),
        Key::ContrastUp => lemma_key_names_len_10(),
        Key::ContrastDown => lemma_key_names_len_12(),
        Key::Control => lemma_key_names_len_7(),
        Key::Convert => lemma_key_names_len_7(),
        Key::Crsel => lemma_key_names_len_5(),
        Key::DBEAlphanumeric => lemma_key_names_len_15(),
        Key::DBECodeinput => lemma_key_names_len_12(),
        Key::DBEDetermineString => lemma_key_names_len_18(),
        Key::DBEEnterDLGConversionMode => lemma_key_names_len_25(),
        Key::DBEEnterIMEConfigMode => lemma_key_names_len_21(),
        Key::DBEEnterWordRegisterMode => lemma_key_names_len_24(),
        Key::DBEFlushString => lemma_key_names_len_14(),
        Key::DBEHiragana => lemma_key_names_len_11(),
        Key::DBEKatakana => lemma_key_names_len_11(),
        Key::DBENoCodepoint => lemma_key_names_len_14(),
        Key::DBENoRoman => lemma_key_names_len_10(),
        Key::DBERoman => lemma_key_names_len_8(),
        Key::DBESBCSChar => lemma_key_names_len_11(),
        Key::DBESChar => lemma_key_names_len_8(),
        Key::Decimal => lemma_key_names_len_7(),
        Key::Delete => lemma_key_names_len_6(),
        Key::Divide => lemma_key_names_len_6(),
        Key::DownArrow => lemma_key_names_len_9(),
        Key::Eject => lemma_key_names_len_5(),
        Key::End => lemma_key_names_len_3(),
        Key::Ereof => lemma_key_names_len_5(),
        Key::Escape => lemma_key_names_len_6(),
        Key::Execute => lemma_key_names_len_7(),
        Key::Exsel => lemma_key_names_len_5(),
        Key::F1 => lemma_key_names_len_2(),
        Key::F2 => lemma_key_names_len_2(),
        Key::F3 => lemma_key_names_len_2(),
        Key::F4 => lemma_key_names_len_2(),
        Key::F5 => lemma_key_names_len_2(),
        Key::F6 => lemma_key_names_len_2(),
        Key::F7 => lemma_key_names_len_2(),
        Key::F8 => lemma_key_names_len_2(),
        Key::F9 => lemma_key_names_len_2(),
        Key::F10 => lemma_key_names_len_3(),
        Key::F11 => lemma_key_names_len_3(),
        Key::F12 => lemma_key_names_len_3(),
        Key::F13 => lemma_key_names_len_3(),
        Key::F14 => lemma_key_names_len_3(),
        Key::F15 => lemma_key_names_len_3(),
        Key::F16 => lemma_key_names_len_3(),
        Key::F17 => lemma_key_names_len_3(),
        Key::F18 => lemma_key_names_len_3(),
        Key::F19 => lemma_key_names_len_3(),
        Key::F20 => lemma_key_names_len_3(),
        Key::F21 => lemma_key_names_len_3(),
        Key::F22 => lemma_key_names_len_3(),
        Key::F23 => lemma_key_names_len_3(),
        Key::F24 => lemma_key_names_len_3(),
        Key::F25 => lemma_key_names_len_3(),
        Key::F26 => lemma_key_names_len_3(),
        Key::F27 => lemma_key_names_len_3(),
        Key::F28 => lemma_key_names_len_3(),
        Key::F29 => lemma_key_names_len_3(),
        Key::F30 => lemma_key_names_len_3(),
        Key::F31 => lemma_key_names_len_3(),
        Key::F32 => lemma_key_names_len_3(),
        Key::F33 => lemma_key_names_len_3(),
        Key::F34 => lemma_key_names_len_3(),
        Key::F35 => lemma_key_names_len_3(),
        Key::Function => lemma_key_names_len_8(),
        Key::Final => lemma_key_names_len_5(),
        Key::Find => lemma_key_names_len_4(),
        Key::GamepadA => lemma_key_names_len_8(),
        Key::GamepadB => lemma_key_names_len_8(),
        Key::GamepadDPadDown => lemma_key_names_len_15(),
        Key::GamepadDPadLeft => lemma_key_names_len_15(),
        Key::GamepadDPadRight => lemma_key_names_len_16(),
        Key::GamepadDPadUp => lemma_key_names_len_13(),
        Key::GamepadLeftShoulder => lemma_key_names_len_19(),
        Key::GamepadLeftThumbstickButton => lemma_key_names_len_27(),
        Key::GamepadLeftThumbstickDown => lemma_key_names_len_25(),
        Key::GamepadLeftThumbstickLeft => lemma_key_names_len_25(),
        Key::GamepadLeftThumbstickRight => lemma_key_names_len_26(),
        Key::GamepadLeftThumbstickUp => lemma_key_names_len_23(),
        Key::GamepadLeftTrigger => lemma_key_names_len_18(),
        Key::GamepadMenu => lemma_key_names_len_11(),
        Key::GamepadRightShoulder => lemma_key_names_len_20(),
        Key::GamepadRightThumbstickButton => lemma_key_names_len_28(),
        Key::GamepadRightThumbstickDown => lemma_key_names_len_26(),
        Key::GamepadRightThumbstickLeft => lemma_key_names_len_26(),
        Key::GamepadRightThumbstickRight => lemma_key_names_len_27(),
        Key::GamepadRightThumbstickUp => lemma_key_names_len_24(),
        Key::GamepadRightTrigger => lemma_key_names_len_19(),
        Key::GamepadView => lemma_key_names_len_11(),
        Key::GamepadX => lemma_key_names_len_8(),
        Key::GamepadY => lemma_key_names_len_8(),
        Key::Hangeul => lemma_key_names_len_7(),
        Key::Hangul => lemma_key_names_len_6(),
        Key::Hanja => lemma_key_names_len_5(),
        Key::Help => lemma_key_names_len_4(),
        Key::Home => lemma_key_names_len_4(),
        Key::Ico00 => lemma_key_names_len_5(),
        Key::IcoClear => lemma_key_names_len_8(),
        Key::IcoHelp => lemma_key_names_len_7(),
        Key::IlluminationDown => lemma_key_names_len_16(),
        Key::IlluminationUp => lemma_key_names_len_14(),
        Key::IlluminationToggle => lemma_key_names_len_18(),
        Key::IMEOff => lemma_key_names_len_6(),
        Key::IMEOn => lemma_key_names_len_5(),
        Key::Insert => lemma_key_names_len_6(),
        Key::Junja => lemma_key_names_len_5(),
        Key::Kana => lemma_key_names_len_4(),
        Key::Kanji => lemma_key_names_len_5(),
        Key::LaunchApp1 => lemma_key_names_len_10(),
        Key::LaunchApp2 => lemma_key_names_len_10(),
        Key::LaunchMail => lemma_key_names_len_10(),
        Key::LaunchMediaSelect => lemma_key_names_len_17(),
        Key::Launchpad => lemma_key_names_len_9(),
        Key::LaunchPanel => lemma_key_names_len_11(),
        Key::LButton => lemma_key_names_len_7(),
        Key::LControl => lemma_key_names_len_8(),
        Key::LeftArrow => lemma_key_names_len_9(),
        Key::Linefeed => lemma_key_names_len_8(),
        Key::LMenu => lemma_key_names_len_5(),
        Key::LShift => lemma_key_names_len_6(),
        Key::LWin => lemma_key_names_len_4(),
        Key::MButton => lemma_key_names_len_7(),
        Key::MediaFast => lemma_key_names_len_9(),
        Key::MediaNextTrack => lemma_key_names_len_14(),
        Key::MediaPlayPause => lemma_key_names_len_14(),
        Key::MediaPrevTrack => lemma_key_names_len_14(),
        Key::MediaRewind => lemma_key_names_len_11(),
        Key::MediaStop => lemma_key_names_len_9(),
        Key::Meta => lemma_key_names_len_4(),
        Key::MissionControl => lemma_key_names_len_14(),
        Key::ModeChange => lemma_key_names_len_10(),
        Key::Multiply => lemma_key_names_len_8(),
        Key::NavigationAccept => lemma_key_names_len_16(),
        Key::NavigationCancel => lemma_key_names_len_16(),
        Key::NavigationDown => lemma_key_names_len_14(),
        Key::NavigationLeft => lemma_key_names_len_14(),
        Key::NavigationMenu => lemma_key_names_len_14(),
        Key::NavigationRight => lemma_key_names_len_15(),
        Key::NavigationUp => lemma_key_names_len_12(),
        Key::NavigationView => lemma_key_names_len_14(),
        Key::NoName => lemma_key_names_len_6(),
        Key::NonConvert => lemma_key_names_len_10(),
        Key::NoneKey => lemma_key_names_len_4(),
        Key::Numlock => lemma_key_names_len_7(),
        Key::Numpad0 => lemma_key_names_len_7(),
        Key::Numpad1 => lemma_key_names_len_7(),
        Key::Numpad2 => lemma_key_names_len_7(),
        Key::Numpad3 => lemma_key_names_len_7(),
        Key::Numpad4 => lemma_key_names_len_7(),
        Key::Numpad5 => lemma_key_names_len_7(),
        Key::Numpad6 => lemma_key_names_len_7(),
        Key::Numpad7 => lemma_key_names_len_7(),
        Key::Numpad8 => lemma_key_names_len_7(),
        Key::Numpad9 => lemma_key_names_len_7(),
        Key::OEM1 => lemma_key_names_len_4(),
        Key::OEM102 => lemma_key_names_len_6(),
        Key::OEM2 => lemma_key_names_len_4(),
        Key::OEM3 => lemma_key_names_len_4(),
        Key::OEM4 => lemma_key_names_len_4(),
        Key::OEM5 => lemma_key_names_len_4(),
        Key::OEM6 => lemma_key_names_len_4(),
        Key::OEM7 => lemma_key_names_len_4(),
        Key::OEM8 => lemma_key_names_len_4(),
        Key::OEMAttn => lemma_key_names_len_7(),
        Key::OEMAuto => lemma_key_names_len_7(),
        Key::OEMAx => lemma_key_names_len_5(),
        Key::OEMBacktab => lemma_key_names_len_10(),
        Key::OEMClear => lemma_key_names_len_8(),
        Key::OEMComma => lemma_key_names_len_8(),
        Key::OEMCopy => lemma_key_names_len_7(),
        Key::OEMCusel => lemma_key_names_len_8(),
        Key::OEMEnlw => lemma_key_names_len_7(),
        Key::OEMFinish => lemma_key_names_len_9(),
        Key::OEMFJJisho => lemma_key_names_len_10(),
        Key::OEMFJLoya => lemma_key_names_len_9(),
        Key::OEMFJMasshou => lemma_key_names_len_12(),
        Key::OEMFJRoya => lemma_key_names_len_9(),
        Key::OEMFJTouroku => lemma_key_names_len_12(),
        Key::OEMJump => lemma_key_names_len_7(),
        Key::OEMMinus => lemma_key_names_len_8(),
        Key::OEMNECEqual => lemma_key_names_len_11(),
        Key::OEMPA1 => lemma_key_names_len_6(),
        Key::OEMPA2 => lemma_key_names_len_6(),
        Key::OEMPA3 => lemma_key_names_len_6(),
        Key::OEMPeriod => lemma_key_names_len_9(),
        Key::OEMPlus => lemma_key_names_len_7(),
        Key::OEMReset => lemma_key_names_len_8(),
        Key::OEMWsctrl => lemma_key_names_len_9(),
        Key::OptionKey => lemma_key_names_len_6(),
        Key::PA1 => lemma_key_names_len_3(),
        Key::Packet => lemma_key_names_len_6(),
        Key::PageDown => lemma_key_names_len_8(),
        Key::PageUp => lemma_key_names_len_6(),
        Key::Pause => lemma_key_names_len_5(),
        Key::Play => lemma_key_names_len_4(),
        Key::Power => lemma_key_names_len_5(),
        Key::Print => lemma_key_names_len_5(),
        Key::PrintScr => lemma_key_names_len_8(),
        Key::Processkey => lemma_key_names_len_10(),
        Key::RButton => lemma_key_names_len_7(),
        Key::RCommand => lemma_key_names_len_8(),
        Key::RControl => lemma_key_names_len_8(),
        Key::Redo => lemma_key_names_len_4(),
        Key::Return => lemma_key_names_len_6(),
        Key::RightArrow => lemma_key_names_len_10(),
        Key::RMenu => lemma_key_names_len_5(),
        Key::ROption => lemma_key_names_len_7(),
        Key::RShift => lemma_key_names_len_6(),
        Key::RWin => lemma_key_names_len_4(),
        Key::Scroll => lemma_key_names_len_6(),
        Key::ScrollLock => lemma_key_names_len_10(),
        Key::Select => lemma_key_names_len_6(),
        Key::ScriptSwitch => lemma_key_names_len_12(),
        Key::Separator => lemma_key_names_len_9(),
        Key::Shift => lemma_key_names_len_5(),
        Key::ShiftLock => lemma_key_names_len_9(),
        Key::Sleep => lemma_key_names_len_5(),
        Key::Snapshot => lemma_key_names_len_8(),
        Key::Space => lemma_key_names_len_5(),
        Key::Subtract => lemma_key_names_len_8(),
        Key::SysReq => lemma_key_names_len_6(),
        Key::Tab => lemma_key_names_len_3(),
        Key::Undo => lemma_key_names_len_4(),
        Key::UpArrow => lemma_key_names_len_7(),
        Key::VidMirror => lemma_key_names_len_9(),
        Key::VolumeDown => lemma_key_names_len_10(),
        Key::VolumeMute => lemma_key_names_len_10(),
        Key::VolumeUp => lemma_key_names_len_8(),
        Key::MicMute => lemma_key_names_len_7(),
        Key::XButton1 => lemma_key_names_len_8(),
        Key::XButton2 => lemma_key_names_len_8(),
        Key::Zoom => lemma_key_names_len_4(),
        Key::Unicode(..) => {},
        Key::Other(..) => {},
    }
}

/// The alias `"ctrl"` decodes to the same key as the canonical `"Control"`.
pub proof fn lemma_ctrl_alias()
    ensures
        spec_key_of_name("ctrl"@) == spec_key_of_name("Control"@),
        spec_key_of_name("ctrl"@) == Some(Key::Control),
{
    reveal_strlit("Num0");
    reveal_strlit("Num1");
    reveal_strlit("Num2");
    reveal_strlit("Num3");
    reveal_strlit("Num4");
    reveal_strlit("Num5");
    reveal_strlit("Num6");
    reveal_strlit("Num7");
    reveal_strlit("Num8");
    reveal_strlit("Num9");
    reveal_strlit("Apps");
    reveal_strlit("Attn");
    reveal_strlit("Find");
    reveal_strlit("Help");
    reveal_strlit("Home");
    reveal_strlit("Kana");
    reveal_strlit("LWin");
    reveal_strlit("Meta");
    reveal_strlit("None");
    reveal_strlit("OEM1");
    reveal_strlit("OEM2");
    reveal_strlit("OEM3");
    reveal_strlit("OEM4");
    reveal_strlit("OEM5");
    reveal_strlit("OEM6");
    reveal_strlit("OEM7");
    reveal_strlit("OEM8");
    reveal_strlit("Play");
    reveal_strlit("Redo");
    reveal_strlit("RWin");
    reveal_strlit("Undo");
    reveal_strlit("Zoom");
    reveal_strlit("ctrl");
    assert("Num0"@.len() == 4);
    assert("Num0"@[0] == 'N');
    assert("Num0"@[1] == 'u');
    assert("Num0"@[3] == '0');
    assert("Num1"@.len() == 4);
    assert("Num1"@[0] == 'N');
    assert("Num1"@[1] == 'u');
    assert("Num1"@[3] == '1');
    assert("Num2"@.len() == 4);
    assert("Num2"@[0] == 'N');
    assert("Num2"@[1] == 'u');
    assert("Num2"@[3] == '2');
    assert("Num3"@.len() == 4);
    assert("Num3"@[0] == 'N');
    assert("Num3"@[1] == 'u');
    assert("Num3"@[3] == '3');
    assert("Num4"@.len() == 4);
    assert("Num4"@[0] == 'N');
    assert("Num4"@[1] == 'u');
    assert("Num4"@[3] == '4');
    assert("Num5"@.len() == 4);
    assert("Num5"@[0] == 'N');
    assert("Num5"@[1] == 'u');
    assert("Num5"@[3] == '5');
    assert("Num6"@.len() == 4);
    assert("Num6"@[0] == 'N');
    assert("Num6"@[1] == 'u');
    assert("Num6"@[3] == '6');
    assert("Num7"@.len() == 4);
    assert("Num7"@[0] == 'N');
    assert("Num7"@[1] == 'u');
    assert("Num7"@[3] == '7');
    assert("Num8"@.len() == 4);
    assert("Num8"@[0] == 'N');
    assert("Num8"@[1] == 'u');
    assert("Num8"@[3] == '8');
    assert("Num9"@.len() == 4);
    assert("Num9"@[0] == 'N');
    assert("Num9"@[1] == 'u');
    assert("Num9"@[3] == '9');
    assert("Apps"@.len() == 4);
    assert("Apps"@[0] == 'A');
    assert("Apps"@[1] == 'p');
    assert("Attn"@.len() == 4);
    assert("Attn"@[0] == 'A');
    assert("Attn"@[1] == 't');
    assert("Find"@.len() == 4);
    assert("Find"@[0] == 'F');
    assert("Help"@.len() == 4);
    assert("Help"@[0] == 'H');
    assert("Help"@[1] == 'e');
    assert("Home"@.len() == 4);
    assert("Home"@[0] == 'H');
    assert("Home"@[1] == 'o');
    assert("Kana"@.len() == 4);
    assert("Kana"@[0] == 'K');
    assert("LWin"@.len() == 4);
    assert("LWin"@[0] == 'L');
    assert("Meta"@.len() == 4);
    assert("Meta"@[0] == 'M');
    assert("None"@.len() == 4);
    assert("None"@[0] == 'N');
    assert("None"@[1] == 'o');
    assert("OEM1"@.len() == 4);
    assert("OEM1"@[0] == 'O');
    assert("OEM1"@[3] == '1');
    assert("OEM2"@.len() == 4);
    assert("OEM2"@[0] == 'O');
    assert("OEM2"@[3] == '2');
    assert("OEM3"@.len() == 4);
    assert("OEM3"@[0] == 'O');
    assert("OEM3"@[3] == '3');
    assert("OEM4"@.len() == 4);
    assert("OEM4"@[0] == 'O');
    assert("OEM4"@[3] == '4');
    assert("OEM5"@.len() == 4);
    assert("OEM5"@[0] == 'O');
    assert("OEM5"@[3] == '5');
    assert("OEM6"@.len() == 4);
    assert("OEM6"@[0] == 'O');
    assert("OEM6"@[3] == '6');
    assert("OEM7"@.len() == 4);
    assert("OEM7"@[0] == 'O');
    assert("OEM7"@[3] == '7');
    assert("OEM8"@.len() == 4);
    assert("OEM8"@[0] == 'O');
    assert("OEM8"@[3] == '8');
    assert("Play"@.len() == 4);
    assert("Play"@[0] == 'P');
    assert("Redo"@.len() == 4);
    assert("Redo"@[0] == 'R');
    assert("Redo"@[1] == 'e');
    assert("RWin"@.len() == 4);
    assert("RWin"@[0] == 'R');
    assert("RWin"@[1] == 'W');
    assert("Undo"@.len() == 4);
    assert("Undo"@[0] == 'U');
    assert("Zoom"@.len() == 4);
    assert("Zoom"@[0] == 'Z');
    assert("ctrl"@.len() == 4);
    assert("ctrl"@[0] == 'c');
    assert(spec_key_of_name("ctrl"@) == Some(Key::Control));
    lemma_key_names_len_7();
}

} // verus!
