//! Keysym to `Key` and `KeyLocation` lookup tables.
//!
//! An X11 keysym names a symbol on a key cap. `keysym_to_key` turns it into the
//! logical key that the windowing layer reports, and `keysym_location` tells on
//! which part of the keyboard such a key sits.

use vstd::prelude::*;

use crate::keysyms;

verus! {

/// A key with a name of its own (not one that types a character).
#[derive(Clone, Copy, Debug, PartialEq, Eq, Hash, Structural)]
pub enum NamedKey {
    Backspace,
    Tab,
    Clear,
    Enter,
    Pause,
    ScrollLock,
    PrintScreen,
    Escape,
    Delete,
    Compose,
    CodeInput,
    SingleCandidate,
    AllCandidates,
    PreviousCandidate,
    KanjiMode,
    NonConvert,
    Convert,
    Romaji,
    Hiragana,
    HiraganaKatakana,
    Zenkaku,
    Hankaku,
    ZenkakuHankaku,
    KanaMode,
    Alphanumeric,
    Home,
    ArrowLeft,
    ArrowUp,
    ArrowRight,
    ArrowDown,
    PageUp,
    PageDown,
    End,
    Select,
    Execute,
    Insert,
    Undo,
    Redo,
    ContextMenu,
    Find,
    Cancel,
    Help,
    ModeChange,
    NumLock,
    F1,
    F2,
    F3,
    F4,
    F5,
    F6,
    F7,
    F8,
    F9,
    F10,
    F11,
    F12,
    F13,
    F14,
    F15,
    F16,
    F17,
    F18,
    F19,
    F20,
    F21,
    F22,
    F23,
    F24,
    F25,
    F26,
    F27,
    F28,
    F29,
    F30,
    F31,
    F32,
    F33,
    F34,
    F35,
    Shift,
    Control,
    CapsLock,
    Alt,
    Hyper,
    Meta,
    AltGraph,
    GroupNext,
    GroupPrevious,
    GroupFirst,
    GroupLast,
    EraseEof,
    Attn,
    Play,
    ExSel,
    CrSel,
    BrightnessUp,
    BrightnessDown,
    Standby,
    AudioVolumeDown,
    AudioVolumeUp,
    MediaPlay,
    MediaStop,
    MediaTrackPrevious,
    MediaTrackNext,
    BrowserHome,
    LaunchMail,
    BrowserSearch,
    MediaRecord,
    LaunchApplication2,
    LaunchCalendar,
    Power,
    BrowserBack,
    BrowserForward,
    BrowserRefresh,
    WakeUp,
    Eject,
    LaunchScreenSaver,
    LaunchWebBrowser,
    BrowserFavorites,
    MediaPause,
    LaunchApplication1,
    MediaRewind,
    Close,
    Copy,
    Cut,
    LaunchSpreadsheet,
    LogOff,
    New,
    Open,
    Paste,
    LaunchPhone,
    MailReply,
    Save,
    MailSend,
    SpellCheck,
    SplitScreenToggle,
    LaunchMediaPlayer,
    LaunchWordProcessor,
    ZoomIn,
    ZoomOut,
    LaunchWebCam,
    MailForward,
    LaunchMusicPlayer,
    MediaFastForward,
    RandomToggle,
    Subtitle,
    MediaAudioTrack,
    Hibernate,
    AudioVolumeMute,
    VideoModeNext,
}

/// The platform-specific code of a key that has no logical meaning here.
#[derive(Clone, Copy, Debug, PartialEq, Eq, Hash, Structural)]
pub enum NativeKey {
    /// No code is known for the key.
    Unidentified,
    /// An XKB keysym.
    Xkb(u32),
}

/// The logical meaning of a key press.
#[derive(Clone, Debug, PartialEq, Eq, Hash)]
pub enum Key {
    /// A key with a name of its own.
    Named(NamedKey),
    /// A key that produces this text.
    Character(String),
    /// A key with no logical meaning; its native code, where one is known.
    Unidentified(NativeKey),
}

/// Where on the keyboard a key sits, for keys found in more than one place.
#[derive(Clone, Copy, Debug, PartialEq, Eq, Hash, Structural)]
pub enum KeyLocation {
    /// The only place of the key, or the main block.
    Standard,
    /// The left one of a pair.
    Left,
    /// The right one of a pair.
    Right,
    /// The numeric keypad.
    Numpad,
}

/// The named key that the table assigns to `keysym`, if it assigns one.
pub open spec fn keysym_named_key(keysym: u32) -> Option<NamedKey> {
    match keysym {
        // TTY function keys
        keysyms::BackSpace => Some(NamedKey::Backspace),
        keysyms::Tab => Some(NamedKey::Tab),
        keysyms::Clear => Some(NamedKey::Clear),
        keysyms::Return => Some(NamedKey::Enter),
        keysyms::Pause => Some(NamedKey::Pause),
        keysyms::Scroll_Lock => Some(NamedKey::ScrollLock),
        keysyms::Sys_Req => Some(NamedKey::PrintScreen),
        keysyms::Escape => Some(NamedKey::Escape),
        keysyms::Delete => Some(NamedKey::Delete),

        // IME keys
        keysyms::Multi_key => Some(NamedKey::Compose),
        keysyms::Codeinput => Some(NamedKey::CodeInput),
        keysyms::SingleCandidate => Some(NamedKey::SingleCandidate),
        keysyms::MultipleCandidate => Some(NamedKey::AllCandidates),
        keysyms::PreviousCandidate => Some(NamedKey::PreviousCandidate),

        // Japanese keys
        keysyms::Kanji => Some(NamedKey::KanjiMode),
        keysyms::Muhenkan => Some(NamedKey::NonConvert),
        keysyms::Henkan_Mode => Some(NamedKey::Convert),
        keysyms::Romaji => Some(NamedKey::Romaji),
        keysyms::Hiragana => Some(NamedKey::Hiragana),
        keysyms::Hiragana_Katakana => Some(NamedKey::HiraganaKatakana),
        keysyms::Zenkaku => Some(NamedKey::Zenkaku),
        keysyms::Hankaku => Some(NamedKey::Hankaku),
        keysyms::Zenkaku_Hankaku => Some(NamedKey::ZenkakuHankaku),
        keysyms::Kana_Lock => Some(NamedKey::KanaMode),
        keysyms::Kana_Shift => Some(NamedKey::KanaMode),
        keysyms::Eisu_Shift => Some(NamedKey::Alphanumeric),
        keysyms::Eisu_toggle => Some(NamedKey::Alphanumeric),

        // Cursor control & motion
        keysyms::Home => Some(NamedKey::Home),
        keysyms::Left => Some(NamedKey::ArrowLeft),
        keysyms::Up => Some(NamedKey::ArrowUp),
        keysyms::Right => Some(NamedKey::ArrowRight),
        keysyms::Down => Some(NamedKey::ArrowDown),
        keysyms::Page_Up => Some(NamedKey::PageUp),
        keysyms::Page_Down => Some(NamedKey::PageDown),
        keysyms::End => Some(NamedKey::End),

        // Misc. functions
        keysyms::Select => Some(NamedKey::Select),
        keysyms::Print => Some(NamedKey::PrintScreen),
        keysyms::Execute => Some(NamedKey::Execute),
        keysyms::Insert => Some(NamedKey::Insert),
        keysyms::Undo => Some(NamedKey::Undo),
        keysyms::Redo => Some(NamedKey::Redo),
        keysyms::Menu => Some(NamedKey::ContextMenu),
        keysyms::Find => Some(NamedKey::Find),
        keysyms::Cancel => Some(NamedKey::Cancel),
        keysyms::Help => Some(NamedKey::Help),
        keysyms::Break => Some(NamedKey::Pause),
        keysyms::Mode_switch => Some(NamedKey::ModeChange),
        keysyms::Num_Lock => Some(NamedKey::NumLock),

        // Keypad keys
        keysyms::KP_Tab => Some(NamedKey::Tab),
        keysyms::KP_Enter => Some(NamedKey::Enter),
        keysyms::KP_F1 => Some(NamedKey::F1),
        keysyms::KP_F2 => Some(NamedKey::F2),
        keysyms::KP_F3 => Some(NamedKey::F3),
        keysyms::KP_F4 => Some(NamedKey::F4),
        keysyms::KP_Home => Some(NamedKey::Home),
        keysyms::KP_Left => Some(NamedKey::ArrowLeft),
        keysyms::KP_Up => Some(NamedKey::ArrowUp),
        keysyms::KP_Right => Some(NamedKey::ArrowRight),
        keysyms::KP_Down => Some(NamedKey::ArrowDown),
        keysyms::KP_Page_Up => Some(NamedKey::PageUp),
        keysyms::KP_Page_Down => Some(NamedKey::PageDown),
        keysyms::KP_End => Some(NamedKey::End),
        keysyms::KP_Insert => Some(NamedKey::Insert),
        keysyms::KP_Delete => Some(NamedKey::Delete),

        // Function keys
        keysyms::F1 => Some(NamedKey::F1),
        keysyms::F2 => Some(NamedKey::F2),
        keysyms::F3 => Some(NamedKey::F3),
        keysyms::F4 => Some(NamedKey::F4),
        keysyms::F5 => Some(NamedKey::F5),
        keysyms::F6 => Some(NamedKey::F6),
        keysyms::F7 => Some(NamedKey::F7),
        keysyms::F8 => Some(NamedKey::F8),
        keysyms::F9 => Some(NamedKey::F9),
        keysyms::F10 => Some(NamedKey::F10),
        keysyms::F11 => Some(NamedKey::F11),
        keysyms::F12 => Some(NamedKey::F12),
        keysyms::F13 => Some(NamedKey::F13),
        keysyms::F14 => Some(NamedKey::F14),
        keysyms::F15 => Some(NamedKey::F15),
        keysyms::F16 => Some(NamedKey::F16),
        keysyms::F17 => Some(NamedKey::F17),
        keysyms::F18 => Some(NamedKey::F18),
        keysyms::F19 => Some(NamedKey::F19),
        keysyms::F20 => Some(NamedKey::F20),
        keysyms::F21 => Some(NamedKey::F21),
        keysyms::F22 => Some(NamedKey::F22),
        keysyms::F23 => Some(NamedKey::F23),
        keysyms::F24 => Some(NamedKey::F24),
        keysyms::F25 => Some(NamedKey::F25),
        keysyms::F26 => Some(NamedKey::F26),
        keysyms::F27 => Some(NamedKey::F27),
        keysyms::F28 => Some(NamedKey::F28),
        keysyms::F29 => Some(NamedKey::F29),
        keysyms::F30 => Some(NamedKey::F30),
        keysyms::F31 => Some(NamedKey::F31),
        keysyms::F32 => Some(NamedKey::F32),
        keysyms::F33 => Some(NamedKey::F33),
        keysyms::F34 => Some(NamedKey::F34),
        keysyms::F35 => Some(NamedKey::F35),

        // Modifiers
        keysyms::Shift_L => Some(NamedKey::Shift),
        keysyms::Shift_R => Some(NamedKey::Shift),
        keysyms::Control_L => Some(NamedKey::Control),
        keysyms::Control_R => Some(NamedKey::Control),
        keysyms::Caps_Lock => Some(NamedKey::CapsLock),
        keysyms::Alt_L => Some(NamedKey::Alt),
        keysyms::Alt_R => Some(NamedKey::Alt),
        keysyms::Hyper_L => Some(NamedKey::Hyper),
        keysyms::Hyper_R => Some(NamedKey::Hyper),

        keysyms::Super_L => Some(NamedKey::Meta),
        keysyms::Super_R => Some(NamedKey::Meta),

        // XKB function and modifier keys
        keysyms::ISO_Level3_Shift => Some(NamedKey::AltGraph),
        keysyms::ISO_Level3_Latch => Some(NamedKey::AltGraph),
        keysyms::ISO_Level3_Lock => Some(NamedKey::AltGraph),
        keysyms::ISO_Next_Group => Some(NamedKey::GroupNext),
        keysyms::ISO_Prev_Group => Some(NamedKey::GroupPrevious),
        keysyms::ISO_First_Group => Some(NamedKey::GroupFirst),
        keysyms::ISO_Last_Group => Some(NamedKey::GroupLast),
        keysyms::ISO_Left_Tab => Some(NamedKey::Tab),
        keysyms::ISO_Enter => Some(NamedKey::Enter),

        // 3270 terminal keys
        keysyms::_3270_EraseEOF => Some(NamedKey::EraseEof),
        keysyms::_3270_Attn => Some(NamedKey::Attn),
        keysyms::_3270_Play => Some(NamedKey::Play),
        keysyms::_3270_ExSelect => Some(NamedKey::ExSel),
        keysyms::_3270_CursorSelect => Some(NamedKey::CrSel),
        keysyms::_3270_PrintScreen => Some(NamedKey::PrintScreen),
        keysyms::_3270_Enter => Some(NamedKey::Enter),

        // XFree86

        // XFree86 - Backlight controls
        keysyms::XF86_MonBrightnessUp => Some(NamedKey::BrightnessUp),
        keysyms::XF86_MonBrightnessDown => Some(NamedKey::BrightnessDown),

        // XFree86 - "Internet"
        keysyms::XF86_Standby => Some(NamedKey::Standby),
        keysyms::XF86_AudioLowerVolume => Some(NamedKey::AudioVolumeDown),
        keysyms::XF86_AudioRaiseVolume => Some(NamedKey::AudioVolumeUp),
        keysyms::XF86_AudioPlay => Some(NamedKey::MediaPlay),
        keysyms::XF86_AudioStop => Some(NamedKey::MediaStop),
        keysyms::XF86_AudioPrev => Some(NamedKey::MediaTrackPrevious),
        keysyms::XF86_AudioNext => Some(NamedKey::MediaTrackNext),
        keysyms::XF86_HomePage => Some(NamedKey::BrowserHome),
        keysyms::XF86_Mail => Some(NamedKey::LaunchMail),
        keysyms::XF86_Search => Some(NamedKey::BrowserSearch),
        keysyms::XF86_AudioRecord => Some(NamedKey::MediaRecord),

        // XFree86 - PDA
        keysyms::XF86_Calculator => Some(NamedKey::LaunchApplication2),
        keysyms::XF86_Calendar => Some(NamedKey::LaunchCalendar),
        keysyms::XF86_PowerDown => Some(NamedKey::Power),

        // XFree86 - More "Internet"
        keysyms::XF86_Back => Some(NamedKey::BrowserBack),
        keysyms::XF86_Forward => Some(NamedKey::BrowserForward),
        keysyms::XF86_Refresh => Some(NamedKey::BrowserRefresh),
        keysyms::XF86_PowerOff => Some(NamedKey::Power),
        keysyms::XF86_WakeUp => Some(NamedKey::WakeUp),
        keysyms::XF86_Eject => Some(NamedKey::Eject),
        keysyms::XF86_ScreenSaver => Some(NamedKey::LaunchScreenSaver),
        keysyms::XF86_WWW => Some(NamedKey::LaunchWebBrowser),
        keysyms::XF86_Sleep => Some(NamedKey::Standby),
        keysyms::XF86_Favorites => Some(NamedKey::BrowserFavorites),
        keysyms::XF86_AudioPause => Some(NamedKey::MediaPause),
        keysyms::XF86_MyComputer => Some(NamedKey::LaunchApplication1),
        keysyms::XF86_AudioRewind => Some(NamedKey::MediaRewind),

        keysyms::XF86_Calculater => Some(NamedKey::LaunchApplication2),
        keysyms::XF86_Close => Some(NamedKey::Close),
        keysyms::XF86_Copy => Some(NamedKey::Copy),
        keysyms::XF86_Cut => Some(NamedKey::Cut),
        keysyms::XF86_Excel => Some(NamedKey::LaunchSpreadsheet),
        keysyms::XF86_LogOff => Some(NamedKey::LogOff),
        keysyms::XF86_MySites => Some(NamedKey::BrowserFavorites),
        keysyms::XF86_New => Some(NamedKey::New),
        keysyms::XF86_Open => Some(NamedKey::Open),
        keysyms::XF86_Paste => Some(NamedKey::Paste),
        keysyms::XF86_Phone => Some(NamedKey::LaunchPhone),
        keysyms::XF86_Reply => Some(NamedKey::MailReply),
        keysyms::XF86_Reload => Some(NamedKey::BrowserRefresh),
        keysyms::XF86_Save => Some(NamedKey::Save),
        keysyms::XF86_Send => Some(NamedKey::MailSend),
        keysyms::XF86_Spell => Some(NamedKey::SpellCheck),
        keysyms::XF86_SplitScreen => Some(NamedKey::SplitScreenToggle),
        keysyms::XF86_Video => Some(NamedKey::LaunchMediaPlayer),
        keysyms::XF86_Word => Some(NamedKey::LaunchWordProcessor),
        keysyms::XF86_ZoomIn => Some(NamedKey::ZoomIn),
        keysyms::XF86_ZoomOut => Some(NamedKey::ZoomOut),

        keysyms::XF86_WebCam => Some(NamedKey::LaunchWebCam),
        keysyms::XF86_MailForward => Some(NamedKey::MailForward),
        keysyms::XF86_Music => Some(NamedKey::LaunchMusicPlayer),

        keysyms::XF86_AudioForward => Some(NamedKey::MediaFastForward),
        keysyms::XF86_AudioRandomPlay => Some(NamedKey::RandomToggle),
        keysyms::XF86_Subtitle => Some(NamedKey::Subtitle),
        keysyms::XF86_AudioCycleTrack => Some(NamedKey::MediaAudioTrack),
        keysyms::XF86_Suspend => Some(NamedKey::Standby),
        keysyms::XF86_Hibernate => Some(NamedKey::Hibernate),
        keysyms::XF86_AudioMute => Some(NamedKey::AudioVolumeMute),

        keysyms::XF86_Next_VMode => Some(NamedKey::VideoModeNext),

        keysyms::SUN_Copy => Some(NamedKey::Copy),
        keysyms::SUN_Open => Some(NamedKey::Open),
        keysyms::SUN_Paste => Some(NamedKey::Paste),
        keysyms::SUN_Cut => Some(NamedKey::Cut),

        keysyms::SUN_AudioLowerVolume => Some(NamedKey::AudioVolumeDown),
        keysyms::SUN_AudioMute => Some(NamedKey::AudioVolumeMute),
        keysyms::SUN_AudioRaiseVolume => Some(NamedKey::AudioVolumeUp),
        keysyms::SUN_VideoLowerBrightness => Some(NamedKey::BrightnessDown),
        keysyms::SUN_VideoRaiseBrightness => Some(NamedKey::BrightnessUp),
        _ => None,
    }
}

/// `key` is what `keysym` stands for: the named key of the table, a space
/// character for the space keysym, and otherwise an unidentified key that
/// carries the keysym (or no code at all for keysym 0, `NoSymbol`).
pub open spec fn is_key_of_keysym(key: Key, keysym: u32) -> bool {
    match keysym_named_key(keysym) {
        Some(named) => key == Key::Named(named),
        None => if keysym == keysyms::space {
            key matches Key::Character(text) && text@ == seq![' ']
        } else if keysym == 0 {
            key == Key::Unidentified(NativeKey::Unidentified)
        } else {
            key == Key::Unidentified(NativeKey::Xkb(keysym))
        },
    }
}

/// The left-hand keysyms of the modifier pairs.
pub open spec fn is_left_modifier_keysym(keysym: u32) -> bool {
    ||| keysym == keysyms::Shift_L
    ||| keysym == keysyms::Control_L
    ||| keysym == keysyms::Meta_L
    ||| keysym == keysyms::Alt_L
    ||| keysym == keysyms::Super_L
    ||| keysym == keysyms::Hyper_L
}

/// The right-hand keysyms of the modifier pairs.
pub open spec fn is_right_modifier_keysym(keysym: u32) -> bool {
    ||| keysym == keysyms::Shift_R
    ||| keysym == keysyms::Control_R
    ||| keysym == keysyms::Meta_R
    ||| keysym == keysyms::Alt_R
    ||| keysym == keysyms::Super_R
    ||| keysym == keysyms::Hyper_R
}

/// The keysyms of the numeric keypad.
pub open spec fn is_keypad_keysym(keysym: u32) -> bool {
    ||| keysym == keysyms::KP_0
    ||| keysym == keysyms::KP_1
    ||| keysym == keysyms::KP_2
    ||| keysym == keysyms::KP_3
    ||| keysym == keysyms::KP_4
    ||| keysym == keysyms::KP_5
    ||| keysym == keysyms::KP_6
    ||| keysym == keysyms::KP_7
    ||| keysym == keysyms::KP_8
    ||| keysym == keysyms::KP_9
    ||| keysym == keysyms::KP_Space
    ||| keysym == keysyms::KP_Tab
    ||| keysym == keysyms::KP_Enter
    ||| keysym == keysyms::KP_F1
    ||| keysym == keysyms::KP_F2
    ||| keysym == keysyms::KP_F3
    ||| keysym == keysyms::KP_F4
    ||| keysym == keysyms::KP_Home
    ||| keysym == keysyms::KP_Left
    ||| keysym == keysyms::KP_Up
    ||| keysym == keysyms::KP_Right
    ||| keysym == keysyms::KP_Down
    ||| keysym == keysyms::KP_Page_Up
    ||| keysym == keysyms::KP_Page_Down
    ||| keysym == keysyms::KP_End
    ||| keysym == keysyms::KP_Begin
    ||| keysym == keysyms::KP_Insert
    ||| keysym == keysyms::KP_Delete
    ||| keysym == keysyms::KP_Equal
    ||| keysym == keysyms::KP_Multiply
    ||| keysym == keysyms::KP_Add
    ||| keysym == keysyms::KP_Separator
    ||| keysym == keysyms::KP_Subtract
    ||| keysym == keysyms::KP_Decimal
    ||| keysym == keysyms::KP_Divide
}

/// The location of the key that `keysym` names.
pub open spec fn keysym_key_location(keysym: u32) -> KeyLocation {
    if is_left_modifier_keysym(keysym) {
        KeyLocation::Left
    } else if is_right_modifier_keysym(keysym) {
        KeyLocation::Right
    } else if is_keypad_keysym(keysym) {
        KeyLocation::Numpad
    } else {
        KeyLocation::Standard
    }
}

/// The logical key for `keysym`.
pub fn keysym_to_key(keysym: u32) -> (key: Key)
    ensures
        is_key_of_keysym(key, keysym),
{
    Key::Named(
        match keysym {
            // TTY function keys
            keysyms::BackSpace => NamedKey::Backspace,
            keysyms::Tab => NamedKey::Tab,
            keysyms::Clear => NamedKey::Clear,
            keysyms::Return => NamedKey::Enter,
            keysyms::Pause => NamedKey::Pause,
            keysyms::Scroll_Lock => NamedKey::ScrollLock,
            keysyms::Sys_Req => NamedKey::PrintScreen,
            keysyms::Escape => NamedKey::Escape,
            keysyms::Delete => NamedKey::Delete,

            // IME keys
            keysyms::Multi_key => NamedKey::Compose,
            keysyms::Codeinput => NamedKey::CodeInput,
            keysyms::SingleCandidate => NamedKey::SingleCandidate,
            keysyms::MultipleCandidate => NamedKey::AllCandidates,
            keysyms::PreviousCandidate => NamedKey::PreviousCandidate,

            // Japanese keys
            keysyms::Kanji => NamedKey::KanjiMode,
            keysyms::Muhenkan => NamedKey::NonConvert,
            keysyms::Henkan_Mode => NamedKey::Convert,
            keysyms::Romaji => NamedKey::Romaji,
            keysyms::Hiragana => NamedKey::Hiragana,
            keysyms::Hiragana_Katakana => NamedKey::HiraganaKatakana,
            keysyms::Zenkaku => NamedKey::Zenkaku,
            keysyms::Hankaku => NamedKey::Hankaku,
            keysyms::Zenkaku_Hankaku => NamedKey::ZenkakuHankaku,
            keysyms::Kana_Lock => NamedKey::KanaMode,
            keysyms::Kana_Shift => NamedKey::KanaMode,
            keysyms::Eisu_Shift => NamedKey::Alphanumeric,
            keysyms::Eisu_toggle => NamedKey::Alphanumeric,

            // Cursor control & motion
            keysyms::Home => NamedKey::Home,
            keysyms::Left => NamedKey::ArrowLeft,
            keysyms::Up => NamedKey::ArrowUp,
            keysyms::Right => NamedKey::ArrowRight,
            keysyms::Down => NamedKey::ArrowDown,
            keysyms::Page_Up => NamedKey::PageUp,
            keysyms::Page_Down => NamedKey::PageDown,
            keysyms::End => NamedKey::End,

            // Misc. functions
            keysyms::Select => NamedKey::Select,
            keysyms::Print => NamedKey::PrintScreen,
            keysyms::Execute => NamedKey::Execute,
            keysyms::Insert => NamedKey::Insert,
            keysyms::Undo => NamedKey::Undo,
            keysyms::Redo => NamedKey::Redo,
            keysyms::Menu => NamedKey::ContextMenu,
            keysyms::Find => NamedKey::Find,
            keysyms::Cancel => NamedKey::Cancel,
            keysyms::Help => NamedKey::Help,
            keysyms::Break => NamedKey::Pause,
            keysyms::Mode_switch => NamedKey::ModeChange,
            keysyms::Num_Lock => NamedKey::NumLock,

            // Keypad keys
            keysyms::KP_Tab => NamedKey::Tab,
            keysyms::KP_Enter => NamedKey::Enter,
            keysyms::KP_F1 => NamedKey::F1,
            keysyms::KP_F2 => NamedKey::F2,
            keysyms::KP_F3 => NamedKey::F3,
            keysyms::KP_F4 => NamedKey::F4,
            keysyms::KP_Home => NamedKey::Home,
            keysyms::KP_Left => NamedKey::ArrowLeft,
            keysyms::KP_Up => NamedKey::ArrowUp,
            keysyms::KP_Right => NamedKey::ArrowRight,
            keysyms::KP_Down => NamedKey::ArrowDown,
            keysyms::KP_Page_Up => NamedKey::PageUp,
            keysyms::KP_Page_Down => NamedKey::PageDown,
            keysyms::KP_End => NamedKey::End,
            keysyms::KP_Insert => NamedKey::Insert,
            keysyms::KP_Delete => NamedKey::Delete,

            // Function keys
            keysyms::F1 => NamedKey::F1,
            keysyms::F2 => NamedKey::F2,
            keysyms::F3 => NamedKey::F3,
            keysyms::F4 => NamedKey::F4,
            keysyms::F5 => NamedKey::F5,
            keysyms::F6 => NamedKey::F6,
            keysyms::F7 => NamedKey::F7,
            keysyms::F8 => NamedKey::F8,
            keysyms::F9 => NamedKey::F9,
            keysyms::F10 => NamedKey::F10,
            keysyms::F11 => NamedKey::F11,
            keysyms::F12 => NamedKey::F12,
            keysyms::F13 => NamedKey::F13,
            keysyms::F14 => NamedKey::F14,
            keysyms::F15 => NamedKey::F15,
            keysyms::F16 => NamedKey::F16,
            keysyms::F17 => NamedKey::F17,
            keysyms::F18 => NamedKey::F18,
            keysyms::F19 => NamedKey::F19,
            keysyms::F20 => NamedKey::F20,
            keysyms::F21 => NamedKey::F21,
            keysyms::F22 => NamedKey::F22,
            keysyms::F23 => NamedKey::F23,
            keysyms::F24 => NamedKey::F24,
            keysyms::F25 => NamedKey::F25,
            keysyms::F26 => NamedKey::F26,
            keysyms::F27 => NamedKey::F27,
            keysyms::F28 => NamedKey::F28,
            keysyms::F29 => NamedKey::F29,
            keysyms::F30 => NamedKey::F30,
            keysyms::F31 => NamedKey::F31,
            keysyms::F32 => NamedKey::F32,
            keysyms::F33 => NamedKey::F33,
            keysyms::F34 => NamedKey::F34,
            keysyms::F35 => NamedKey::F35,

            // Modifiers
            keysyms::Shift_L => NamedKey::Shift,
            keysyms::Shift_R => NamedKey::Shift,
            keysyms::Control_L => NamedKey::Control,
            keysyms::Control_R => NamedKey::Control,
            keysyms::Caps_Lock => NamedKey::CapsLock,
            keysyms::Alt_L => NamedKey::Alt,
            keysyms::Alt_R => NamedKey::Alt,
            keysyms::Hyper_L => NamedKey::Hyper,
            keysyms::Hyper_R => NamedKey::Hyper,

            keysyms::Super_L => NamedKey::Meta,
            keysyms::Super_R => NamedKey::Meta,

            // XKB function and modifier keys
            keysyms::ISO_Level3_Shift => NamedKey::AltGraph,
            keysyms::ISO_Level3_Latch => NamedKey::AltGraph,
            keysyms::ISO_Level3_Lock => NamedKey::AltGraph,
            keysyms::ISO_Next_Group => NamedKey::GroupNext,
            keysyms::ISO_Prev_Group => NamedKey::GroupPrevious,
            keysyms::ISO_First_Group => NamedKey::GroupFirst,
            keysyms::ISO_Last_Group => NamedKey::GroupLast,
            keysyms::ISO_Left_Tab => NamedKey::Tab,
            keysyms::ISO_Enter => NamedKey::Enter,

            // 3270 terminal keys
            keysyms::_3270_EraseEOF => NamedKey::EraseEof,
            keysyms::_3270_Attn => NamedKey::Attn,
            keysyms::_3270_Play => NamedKey::Play,
            keysyms::_3270_ExSelect => NamedKey::ExSel,
            keysyms::_3270_CursorSelect => NamedKey::CrSel,
            keysyms::_3270_PrintScreen => NamedKey::PrintScreen,
            keysyms::_3270_Enter => NamedKey::Enter,

            // XFree86

            // XFree86 - Backlight controls
            keysyms::XF86_MonBrightnessUp => NamedKey::BrightnessUp,
            keysyms::XF86_MonBrightnessDown => NamedKey::BrightnessDown,

            // XFree86 - "Internet"
            keysyms::XF86_Standby => NamedKey::Standby,
            keysyms::XF86_AudioLowerVolume => NamedKey::AudioVolumeDown,
            keysyms::XF86_AudioRaiseVolume => NamedKey::AudioVolumeUp,
            keysyms::XF86_AudioPlay => NamedKey::MediaPlay,
            keysyms::XF86_AudioStop => NamedKey::MediaStop,
            keysyms::XF86_AudioPrev => NamedKey::MediaTrackPrevious,
            keysyms::XF86_AudioNext => NamedKey::MediaTrackNext,
            keysyms::XF86_HomePage => NamedKey::BrowserHome,
            keysyms::XF86_Mail => NamedKey::LaunchMail,
            keysyms::XF86_Search => NamedKey::BrowserSearch,
            keysyms::XF86_AudioRecord => NamedKey::MediaRecord,

            // XFree86 - PDA
            keysyms::XF86_Calculator => NamedKey::LaunchApplication2,
            keysyms::XF86_Calendar => NamedKey::LaunchCalendar,
            keysyms::XF86_PowerDown => NamedKey::Power,

            // XFree86 - More "Internet"
            keysyms::XF86_Back => NamedKey::BrowserBack,
            keysyms::XF86_Forward => NamedKey::BrowserForward,
            keysyms::XF86_Refresh => NamedKey::BrowserRefresh,
            keysyms::XF86_PowerOff => NamedKey::Power,
            keysyms::XF86_WakeUp => NamedKey::WakeUp,
            keysyms::XF86_Eject => NamedKey::Eject,
            keysyms::XF86_ScreenSaver => NamedKey::LaunchScreenSaver,
            keysyms::XF86_WWW => NamedKey::LaunchWebBrowser,
            keysyms::XF86_Sleep => NamedKey::Standby,
            keysyms::XF86_Favorites => NamedKey::BrowserFavorites,
            keysyms::XF86_AudioPause => NamedKey::MediaPause,
            keysyms::XF86_MyComputer => NamedKey::LaunchApplication1,
            keysyms::XF86_AudioRewind => NamedKey::MediaRewind,

            keysyms::XF86_Calculater => NamedKey::LaunchApplication2,
            keysyms::XF86_Close => NamedKey::Close,
            keysyms::XF86_Copy => NamedKey::Copy,
            keysyms::XF86_Cut => NamedKey::Cut,
            keysyms::XF86_Excel => NamedKey::LaunchSpreadsheet,
            keysyms::XF86_LogOff => NamedKey::LogOff,
            keysyms::XF86_MySites => NamedKey::BrowserFavorites,
            keysyms::XF86_New => NamedKey::New,
            keysyms::XF86_Open => NamedKey::Open,
            keysyms::XF86_Paste => NamedKey::Paste,
            keysyms::XF86_Phone => NamedKey::LaunchPhone,
            keysyms::XF86_Reply => NamedKey::MailReply,
            keysyms::XF86_Reload => NamedKey::BrowserRefresh,
            keysyms::XF86_Save => NamedKey::Save,
            keysyms::XF86_Send => NamedKey::MailSend,
            keysyms::XF86_Spell => NamedKey::SpellCheck,
            keysyms::XF86_SplitScreen => NamedKey::SplitScreenToggle,
            keysyms::XF86_Video => NamedKey::LaunchMediaPlayer,
            keysyms::XF86_Word => NamedKey::LaunchWordProcessor,
            keysyms::XF86_ZoomIn => NamedKey::ZoomIn,
            keysyms::XF86_ZoomOut => NamedKey::ZoomOut,

            keysyms::XF86_WebCam => NamedKey::LaunchWebCam,
            keysyms::XF86_MailForward => NamedKey::MailForward,
            keysyms::XF86_Music => NamedKey::LaunchMusicPlayer,

            keysyms::XF86_AudioForward => NamedKey::MediaFastForward,
            keysyms::XF86_AudioRandomPlay => NamedKey::RandomToggle,
            keysyms::XF86_Subtitle => NamedKey::Subtitle,
            keysyms::XF86_AudioCycleTrack => NamedKey::MediaAudioTrack,
            keysyms::XF86_Suspend => NamedKey::Standby,
            keysyms::XF86_Hibernate => NamedKey::Hibernate,
            keysyms::XF86_AudioMute => NamedKey::AudioVolumeMute,

            keysyms::XF86_Next_VMode => NamedKey::VideoModeNext,

            keysyms::SUN_Copy => NamedKey::Copy,
            keysyms::SUN_Open => NamedKey::Open,
            keysyms::SUN_Paste => NamedKey::Paste,
            keysyms::SUN_Cut => NamedKey::Cut,

            keysyms::SUN_AudioLowerVolume => NamedKey::AudioVolumeDown,
            keysyms::SUN_AudioMute => NamedKey::AudioVolumeMute,
            keysyms::SUN_AudioRaiseVolume => NamedKey::AudioVolumeUp,
            keysyms::SUN_VideoLowerBrightness => NamedKey::BrightnessDown,
            keysyms::SUN_VideoRaiseBrightness => NamedKey::BrightnessUp,
            keysyms::space => {
                let text = String::from_str(" ");
                proof {
                    reveal_strlit(" ");
                    assert(text@ =~= seq![' ']);
                }
                return Key::Character(text);
            },
            0 => return Key::Unidentified(NativeKey::Unidentified),
            _ => return Key::Unidentified(NativeKey::Xkb(keysym)),
        },
    )
}

/// The location of the key that `keysym` names.
pub fn keysym_location(keysym: u32) -> (location: KeyLocation)
    ensures
        location == keysym_key_location(keysym),
{
    match keysym {
        keysyms::Shift_L
        | keysyms::Control_L
        | keysyms::Meta_L
        | keysyms::Alt_L
        | keysyms::Super_L
        | keysyms::Hyper_L => KeyLocation::Left,
        keysyms::Shift_R
        | keysyms::Control_R
        | keysyms::Meta_R
        | keysyms::Alt_R
        | keysyms::Super_R
        | keysyms::Hyper_R => KeyLocation::Right,
        keysyms::KP_0
        | keysyms::KP_1
        | keysyms::KP_2
        | keysyms::KP_3
        | keysyms::KP_4
        | keysyms::KP_5
        | keysyms::KP_6
        | keysyms::KP_7
        | keysyms::KP_8
        | keysyms::KP_9
        | keysyms::KP_Space
        | keysyms::KP_Tab
        | keysyms::KP_Enter
        | keysyms::KP_F1
        | keysyms::KP_F2
        | keysyms::KP_F3
        | keysyms::KP_F4
        | keysyms::KP_Home
        | keysyms::KP_Left
        | keysyms::KP_Up
        | keysyms::KP_Right
        | keysyms::KP_Down
        | keysyms::KP_Page_Up
        | keysyms::KP_Page_Down
        | keysyms::KP_End
        | keysyms::KP_Begin
        | keysyms::KP_Insert
        | keysyms::KP_Delete
        | keysyms::KP_Equal
        | keysyms::KP_Multiply
        | keysyms::KP_Add
        | keysyms::KP_Separator
        | keysyms::KP_Subtract
        | keysyms::KP_Decimal
        | keysyms::KP_Divide => KeyLocation::Numpad,
        _ => KeyLocation::Standard,
    }
}

/// The two keys of a modifier pair have neighbouring keysyms, the left one
/// first, and they name the same key: only `keysym_location` tells them apart.
pub proof fn lemma_modifier_pairs_name_one_key(keysym: u32)
    requires
        keysym_key_location(keysym) == KeyLocation::Left,
    ensures
        keysym < u32::MAX,
        keysym_key_location((keysym + 1) as u32) == KeyLocation::Right,
        keysym_named_key((keysym + 1) as u32) == keysym_named_key(keysym),
{
}

/// Every right-hand modifier keysym has its left-hand partner just below it.
pub proof fn lemma_right_modifiers_have_left_partners(keysym: u32)
    requires
        keysym_key_location(keysym) == KeyLocation::Right,
    ensures
        keysym > 0,
        keysym_key_location((keysym - 1) as u32) == KeyLocation::Left,
        keysym_named_key((keysym - 1) as u32) == keysym_named_key(keysym),
{
}

/// Only modifiers come in a left and a right version: a keysym with a side
/// names Shift, Control, Alt, Meta or Hyper, or no key at all.
pub proof fn lemma_sided_keys_are_modifiers(keysym: u32)
    requires
        keysym_key_location(keysym) == KeyLocation::Left || keysym_key_location(keysym)
            == KeyLocation::Right,
    ensures
        keysym_named_key(keysym) matches Some(named) ==> (named == NamedKey::Shift || named
            == NamedKey::Control || named == NamedKey::Alt || named == NamedKey::Meta || named
            == NamedKey::Hyper),
{
}

/// Every key of the numeric keypad that has a name is also found, under the
/// same name, off the keypad.
pub proof fn lemma_keypad_names_exist_off_keypad(keysym: u32)
    requires
        keysym_key_location(keysym) == KeyLocation::Numpad,
        keysym_named_key(keysym) is Some,
    ensures
        exists|other: u32|
            #![trigger keysym_named_key(other)]
            keysym_key_location(other) == KeyLocation::Standard && keysym_named_key(other)
                == keysym_named_key(keysym),
{
    if keysym == keysyms::KP_Tab {
        assert(keysym_key_location(keysyms::Tab) == KeyLocation::Standard);
        assert(keysym_named_key(keysyms::Tab) == keysym_named_key(keysym));
    } else if keysym == keysyms::KP_Enter {
        assert(keysym_key_location(keysyms::Return) == KeyLocation::Standard);
        assert(keysym_named_key(keysyms::Return) == keysym_named_key(keysym));
    } else if keysym == keysyms::KP_F1 {
        assert(keysym_key_location(keysyms::F1) == KeyLocation::Standard);
        assert(keysym_named_key(keysyms::F1) == keysym_named_key(keysym));
    } else if keysym == keysyms::KP_F2 {
        assert(keysym_key_location(keysyms::F2) == KeyLocation::Standard);
        assert(keysym_named_key(keysyms::F2) == keysym_named_key(keysym));
    } else if keysym == keysyms::KP_F3 {
        assert(keysym_key_location(keysyms::F3) == KeyLocation::Standard);
        assert(keysym_named_key(keysyms::F3) == keysym_named_key(keysym));
    } else if keysym == keysyms::KP_F4 {
        assert(keysym_key_location(keysyms::F4) == KeyLocation::Standard);
        assert(keysym_named_key(keysyms::F4) == keysym_named_key(keysym));
    } else if keysym == keysyms::KP_Home {
        assert(keysym_key_location(keysyms::Home) == KeyLocation::Standard);
        assert(keysym_named_key(keysyms::Home) == keysym_named_key(keysym));
    } else if keysym == keysyms::KP_Left {
        assert(keysym_key_location(keysyms::Left) == KeyLocation::Standard);
        assert(keysym_named_key(keysyms::Left) == keysym_named_key(keysym));
    } else if keysym == keysyms::KP_Up {
        assert(keysym_key_location(keysyms::Up) == KeyLocation::Standard);
        assert(keysym_named_key(keysyms::Up) == keysym_named_key(keysym));
    } else if keysym == keysyms::KP_Right {
        assert(keysym_key_location(keysyms::Right) == KeyLocation::Standard);
        assert(keysym_named_key(keysyms::Right) == keysym_named_key(keysym));
    } else if keysym == keysyms::KP_Down {
        assert(keysym_key_location(keysyms::Down) == KeyLocation::Standard);
        assert(keysym_named_key(keysyms::Down) == keysym_named_key(keysym));
    } else if keysym == keysyms::KP_Page_Up {
        assert(keysym_key_location(keysyms::Page_Up) == KeyLocation::Standard);
        assert(keysym_named_key(keysyms::Page_Up) == keysym_named_key(keysym));
    } else if keysym == keysyms::KP_Page_Down {
        assert(keysym_key_location(keysyms::Page_Down) == KeyLocation::Standard);
        assert(keysym_named_key(keysyms::Page_Down) == keysym_named_key(keysym));
    } else if keysym == keysyms::KP_End {
        assert(keysym_key_location(keysyms::End) == KeyLocation::Standard);
        assert(keysym_named_key(keysyms::End) == keysym_named_key(keysym));
    } else if keysym == keysyms::KP_Insert {
        assert(keysym_key_location(keysyms::Insert) == KeyLocation::Standard);
        assert(keysym_named_key(keysyms::Insert) == keysym_named_key(keysym));
    } else if keysym == keysyms::KP_Delete {
        assert(keysym_key_location(keysyms::Delete) == KeyLocation::Standard);
        assert(keysym_named_key(keysyms::Delete) == keysym_named_key(keysym));
    }
}

/// A keysym named after a key (leaving aside a vendor prefix such as `XF86_`
/// or `SUN_` and the side of a modifier) stands for the key of that name.
pub proof fn lemma_keysyms_stand_for_their_namesakes()
    ensures
        keysym_named_key(keysyms::BackSpace) == Some(NamedKey::Backspace),
        keysym_named_key(keysyms::Tab) == Some(NamedKey::Tab),
        keysym_named_key(keysyms::Clear) == Some(NamedKey::Clear),
        keysym_named_key(keysyms::Pause) == Some(NamedKey::Pause),
        keysym_named_key(keysyms::Scroll_Lock) == Some(NamedKey::ScrollLock),
        keysym_named_key(keysyms::Escape) == Some(NamedKey::Escape),
        keysym_named_key(keysyms::Delete) == Some(NamedKey::Delete),
        keysym_named_key(keysyms::Codeinput) == Some(NamedKey::CodeInput),
        keysym_named_key(keysyms::SingleCandidate) == Some(NamedKey::SingleCandidate),
        keysym_named_key(keysyms::PreviousCandidate) == Some(NamedKey::PreviousCandidate),
        keysym_named_key(keysyms::Romaji) == Some(NamedKey::Romaji),
        keysym_named_key(keysyms::Hiragana) == Some(NamedKey::Hiragana),
        keysym_named_key(keysyms::Hiragana_Katakana) == Some(NamedKey::HiraganaKatakana),
        keysym_named_key(keysyms::Zenkaku) == Some(NamedKey::Zenkaku),
        keysym_named_key(keysyms::Hankaku) == Some(NamedKey::Hankaku),
        keysym_named_key(keysyms::Zenkaku_Hankaku) == Some(NamedKey::ZenkakuHankaku),
        keysym_named_key(keysyms::Home) == Some(NamedKey::Home),
        keysym_named_key(keysyms::Page_Up) == Some(NamedKey::PageUp),
        keysym_named_key(keysyms::Page_Down) == Some(NamedKey::PageDown),
        keysym_named_key(keysyms::End) == Some(NamedKey::End),
        keysym_named_key(keysyms::Select) == Some(NamedKey::Select),
        keysym_named_key(keysyms::Execute) == Some(NamedKey::Execute),
        keysym_named_key(keysyms::Insert) == Some(NamedKey::Insert),
        keysym_named_key(keysyms::Undo) == Some(NamedKey::Undo),
        keysym_named_key(keysyms::Redo) == Some(NamedKey::Redo),
        keysym_named_key(keysyms::Find) == Some(NamedKey::Find),
        keysym_named_key(keysyms::Cancel) == Some(NamedKey::Cancel),
        keysym_named_key(keysyms::Help) == Some(NamedKey::Help),
        keysym_named_key(keysyms::Num_Lock) == Some(NamedKey::NumLock),
        keysym_named_key(keysyms::F1) == Some(NamedKey::F1),
        keysym_named_key(keysyms::F2) == Some(NamedKey::F2),
        keysym_named_key(keysyms::F3) == Some(NamedKey::F3),
        keysym_named_key(keysyms::F4) == Some(NamedKey::F4),
        keysym_named_key(keysyms::F5) == Some(NamedKey::F5),
        keysym_named_key(keysyms::F6) == Some(NamedKey::F6),
        keysym_named_key(keysyms::F7) == Some(NamedKey::F7),
        keysym_named_key(keysyms::F8) == Some(NamedKey::F8),
        keysym_named_key(keysyms::F9) == Some(NamedKey::F9),
        keysym_named_key(keysyms::F10) == Some(NamedKey::F10),
        keysym_named_key(keysyms::F11) == Some(NamedKey::F11),
        keysym_named_key(keysyms::F12) == Some(NamedKey::F12),
        keysym_named_key(keysyms::F13) == Some(NamedKey::F13),
        keysym_named_key(keysyms::F14) == Some(NamedKey::F14),
        keysym_named_key(keysyms::F15) == Some(NamedKey::F15),
        keysym_named_key(keysyms::F16) == Some(NamedKey::F16),
        keysym_named_key(keysyms::F17) == Some(NamedKey::F17),
        keysym_named_key(keysyms::F18) == Some(NamedKey::F18),
        keysym_named_key(keysyms::F19) == Some(NamedKey::F19),
        keysym_named_key(keysyms::F20) == Some(NamedKey::F20),
        keysym_named_key(keysyms::F21) == Some(NamedKey::F21),
        keysym_named_key(keysyms::F22) == Some(NamedKey::F22),
        keysym_named_key(keysyms::F23) == Some(NamedKey::F23),
        keysym_named_key(keysyms::F24) == Some(NamedKey::F24),
        keysym_named_key(keysyms::F25) == Some(NamedKey::F25),
        keysym_named_key(keysyms::F26) == Some(NamedKey::F26),
        keysym_named_key(keysyms::F27) == Some(NamedKey::F27),
        keysym_named_key(keysyms::F28) == Some(NamedKey::F28),
        keysym_named_key(keysyms::F29) == Some(NamedKey::F29),
        keysym_named_key(keysyms::F30) == Some(NamedKey::F30),
        keysym_named_key(keysyms::F31) == Some(NamedKey::F31),
        keysym_named_key(keysyms::F32) == Some(NamedKey::F32),
        keysym_named_key(keysyms::F33) == Some(NamedKey::F33),
        keysym_named_key(keysyms::F34) == Some(NamedKey::F34),
        keysym_named_key(keysyms::F35) == Some(NamedKey::F35),
        keysym_named_key(keysyms::Shift_L) == Some(NamedKey::Shift),
        keysym_named_key(keysyms::Shift_R) == Some(NamedKey::Shift),
        keysym_named_key(keysyms::Control_L) == Some(NamedKey::Control),
        keysym_named_key(keysyms::Control_R) == Some(NamedKey::Control),
        keysym_named_key(keysyms::Caps_Lock) == Some(NamedKey::CapsLock),
        keysym_named_key(keysyms::Alt_L) == Some(NamedKey::Alt),
        keysym_named_key(keysyms::Alt_R) == Some(NamedKey::Alt),
        keysym_named_key(keysyms::Hyper_L) == Some(NamedKey::Hyper),
        keysym_named_key(keysyms::Hyper_R) == Some(NamedKey::Hyper),
        keysym_named_key(keysyms::_3270_EraseEOF) == Some(NamedKey::EraseEof),
        keysym_named_key(keysyms::_3270_Attn) == Some(NamedKey::Attn),
        keysym_named_key(keysyms::_3270_Play) == Some(NamedKey::Play),
        keysym_named_key(keysyms::_3270_PrintScreen) == Some(NamedKey::PrintScreen),
        keysym_named_key(keysyms::_3270_Enter) == Some(NamedKey::Enter),
        keysym_named_key(keysyms::XF86_Standby) == Some(NamedKey::Standby),
        keysym_named_key(keysyms::XF86_WakeUp) == Some(NamedKey::WakeUp),
        keysym_named_key(keysyms::XF86_Eject) == Some(NamedKey::Eject),
        keysym_named_key(keysyms::XF86_Close) == Some(NamedKey::Close),
        keysym_named_key(keysyms::XF86_Copy) == Some(NamedKey::Copy),
        keysym_named_key(keysyms::XF86_Cut) == Some(NamedKey::Cut),
        keysym_named_key(keysyms::XF86_LogOff) == Some(NamedKey::LogOff),
        keysym_named_key(keysyms::XF86_New) == Some(NamedKey::New),
        keysym_named_key(keysyms::XF86_Open) == Some(NamedKey::Open),
        keysym_named_key(keysyms::XF86_Paste) == Some(NamedKey::Paste),
        keysym_named_key(keysyms::XF86_Save) == Some(NamedKey::Save),
        keysym_named_key(keysyms::XF86_ZoomIn) == Some(NamedKey::ZoomIn),
        keysym_named_key(keysyms::XF86_ZoomOut) == Some(NamedKey::ZoomOut),
        keysym_named_key(keysyms::XF86_MailForward) == Some(NamedKey::MailForward),
        keysym_named_key(keysyms::XF86_Subtitle) == Some(NamedKey::Subtitle),
        keysym_named_key(keysyms::XF86_Hibernate) == Some(NamedKey::Hibernate),
        keysym_named_key(keysyms::SUN_Copy) == Some(NamedKey::Copy),
        keysym_named_key(keysyms::SUN_Open) == Some(NamedKey::Open),
        keysym_named_key(keysyms::SUN_Paste) == Some(NamedKey::Paste),
        keysym_named_key(keysyms::SUN_Cut) == Some(NamedKey::Cut),
{
}

/// The number of a function key: `n` for the key `Fn`, and 0 for a key that
/// is no function key.
pub open spec fn function_key_number(key: NamedKey) -> int {
    match key {
        NamedKey::F1 => 1,
        NamedKey::F2 => 2,
        NamedKey::F3 => 3,
        NamedKey::F4 => 4,
        NamedKey::F5 => 5,
        NamedKey::F6 => 6,
        NamedKey::F7 => 7,
        NamedKey::F8 => 8,
        NamedKey::F9 => 9,
        NamedKey::F10 => 10,
        NamedKey::F11 => 11,
        NamedKey::F12 => 12,
        NamedKey::F13 => 13,
        NamedKey::F14 => 14,
        NamedKey::F15 => 15,
        NamedKey::F16 => 16,
        NamedKey::F17 => 17,
        NamedKey::F18 => 18,
        NamedKey::F19 => 19,
        NamedKey::F20 => 20,
        NamedKey::F21 => 21,
        NamedKey::F22 => 22,
        NamedKey::F23 => 23,
        NamedKey::F24 => 24,
        NamedKey::F25 => 25,
        NamedKey::F26 => 26,
        NamedKey::F27 => 27,
        NamedKey::F28 => 28,
        NamedKey::F29 => 29,
        NamedKey::F30 => 30,
        NamedKey::F31 => 31,
        NamedKey::F32 => 32,
        NamedKey::F33 => 33,
        NamedKey::F34 => 34,
        NamedKey::F35 => 35,
        _ => 0,
    }
}

/// The function keysyms `F1` to `F35` are numbered in a row, and each stands
/// for the function key of its number; so do the keypad's `KP_F1` to `KP_F4`.
pub proof fn lemma_function_keysyms_in_order(keysym: u32)
    ensures
        keysyms::F1 <= keysym <= keysyms::F35 ==> (keysym_named_key(keysym) matches Some(key)
            && function_key_number(key) == keysym - keysyms::F1 + 1),
        keysyms::KP_F1 <= keysym <= keysyms::KP_F4 ==> (keysym_named_key(keysym) matches Some(
            key) && function_key_number(key) == keysym - keysyms::KP_F1 + 1),
{
    if keysyms::F1 <= keysym <= keysyms::F35 {
        assert(keysym == keysyms::F1 || keysym == keysyms::F2 || keysym == keysyms::F3 || keysym == keysyms::F4 || keysym == keysyms::F5 || keysym == keysyms::F6 || keysym == keysyms::F7 || keysym == keysyms::F8 || keysym == keysyms::F9 || keysym == keysyms::F10 || keysym == keysyms::F11 || keysym == keysyms::F12 || keysym == keysyms::F13 || keysym == keysyms::F14 || keysym == keysyms::F15 || keysym == keysyms::F16 || keysym == keysyms::F17 || keysym == keysyms::F18 || keysym == keysyms::F19 || keysym == keysyms::F20 || keysym == keysyms::F21 || keysym == keysyms::F22 || keysym == keysyms::F23 || keysym == keysyms::F24 || keysym == keysyms::F25 || keysym == keysyms::F26 || keysym == keysyms::F27 || keysym == keysyms::F28 || keysym == keysyms::F29 || keysym == keysyms::F30 || keysym == keysyms::F31 || keysym == keysyms::F32 || keysym == keysyms::F33 || keysym == keysyms::F34 || keysym == keysyms::F35);
    }
    if keysyms::KP_F1 <= keysym <= keysyms::KP_F4 {
        assert(keysym == keysyms::KP_F1 || keysym == keysyms::KP_F2 || keysym == keysyms::KP_F3
            || keysym == keysyms::KP_F4);
    }
}

/// The keypad's keysyms lie in one block, from `KP_Space` to `KP_Equal`; in
/// it, the digits `KP_0` to `KP_9`, the run from `KP_F1` to `KP_Delete`, the
/// operators from `KP_Multiply` to `KP_Divide`, and `KP_Space`, `KP_Tab`,
/// `KP_Enter` and `KP_Equal` are on the numeric keypad. No keysym outside the
/// block is.
pub proof fn lemma_keypad_block_is_numpad(keysym: u32)
    ensures
        keysyms::KP_0 <= keysym <= keysyms::KP_9 ==> keysym_key_location(keysym)
            == KeyLocation::Numpad,
        keysyms::KP_F1 <= keysym <= keysyms::KP_Delete ==> keysym_key_location(keysym)
            == KeyLocation::Numpad,
        keysyms::KP_Multiply <= keysym <= keysyms::KP_Divide ==> keysym_key_location(keysym)
            == KeyLocation::Numpad,
        keysym == keysyms::KP_Space || keysym == keysyms::KP_Tab || keysym == keysyms::KP_Enter
            || keysym == keysyms::KP_Equal ==> keysym_key_location(keysym) == KeyLocation::Numpad,
        keysym_key_location(keysym) == KeyLocation::Numpad ==> keysyms::KP_Space <= keysym
            <= keysyms::KP_Equal,
{
}

/// The arrow keysyms stand for the arrow keys of their direction.
pub proof fn lemma_arrow_keysyms_point_their_way()
    ensures
        keysym_named_key(keysyms::Left) == Some(NamedKey::ArrowLeft),
        keysym_named_key(keysyms::Up) == Some(NamedKey::ArrowUp),
        keysym_named_key(keysyms::Right) == Some(NamedKey::ArrowRight),
        keysym_named_key(keysyms::Down) == Some(NamedKey::ArrowDown),
{
}

/// A named key of the numeric keypad stands for the same key as its twin off
/// the keypad (`KP_Enter` for `Return`, `KP_Home` for `Home`, and so on).
pub proof fn lemma_keypad_keysyms_match_their_twins()
    ensures
        keysym_named_key(keysyms::KP_Tab) == keysym_named_key(keysyms::Tab),
        keysym_named_key(keysyms::KP_Enter) == keysym_named_key(keysyms::Return),
        keysym_named_key(keysyms::KP_F1) == keysym_named_key(keysyms::F1),
        keysym_named_key(keysyms::KP_F2) == keysym_named_key(keysyms::F2),
        keysym_named_key(keysyms::KP_F3) == keysym_named_key(keysyms::F3),
        keysym_named_key(keysyms::KP_F4) == keysym_named_key(keysyms::F4),
        keysym_named_key(keysyms::KP_Home) == keysym_named_key(keysyms::Home),
        keysym_named_key(keysyms::KP_Left) == keysym_named_key(keysyms::Left),
        keysym_named_key(keysyms::KP_Up) == keysym_named_key(keysyms::Up),
        keysym_named_key(keysyms::KP_Right) == keysym_named_key(keysyms::Right),
        keysym_named_key(keysyms::KP_Down) == keysym_named_key(keysyms::Down),
        keysym_named_key(keysyms::KP_Page_Up) == keysym_named_key(keysyms::Page_Up),
        keysym_named_key(keysyms::KP_Page_Down) == keysym_named_key(keysyms::Page_Down),
        keysym_named_key(keysyms::KP_End) == keysym_named_key(keysyms::End),
        keysym_named_key(keysyms::KP_Insert) == keysym_named_key(keysyms::Insert),
        keysym_named_key(keysyms::KP_Delete) == keysym_named_key(keysyms::Delete),
{
}

} // verus!
