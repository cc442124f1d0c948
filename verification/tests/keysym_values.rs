//! The keysym values of the library against those of xkbcommon-dl.

use winit_gtk4::keysyms;
use xkbcommon_dl::keysyms as xkb;

#[test]
fn keysym_values_match_xkbcommon() {
    assert_eq!(keysyms::BackSpace, xkb::BackSpace);
    assert_eq!(keysyms::Tab, xkb::Tab);
    assert_eq!(keysyms::Clear, xkb::Clear);
    assert_eq!(keysyms::Return, xkb::Return);
    assert_eq!(keysyms::Pause, xkb::Pause);
    assert_eq!(keysyms::Scroll_Lock, xkb::Scroll_Lock);
    assert_eq!(keysyms::Sys_Req, xkb::Sys_Req);
    assert_eq!(keysyms::Escape, xkb::Escape);
    assert_eq!(keysyms::Delete, xkb::Delete);
    assert_eq!(keysyms::Multi_key, xkb::Multi_key);
    assert_eq!(keysyms::Codeinput, xkb::Codeinput);
    assert_eq!(keysyms::SingleCandidate, xkb::SingleCandidate);
    assert_eq!(keysyms::MultipleCandidate, xkb::MultipleCandidate);
    assert_eq!(keysyms::PreviousCandidate, xkb::PreviousCandidate);
    assert_eq!(keysyms::Kanji, xkb::Kanji);
    assert_eq!(keysyms::Muhenkan, xkb::Muhenkan);
    assert_eq!(keysyms::Henkan_Mode, xkb::Henkan_Mode);
    assert_eq!(keysyms::Romaji, xkb::Romaji);
    assert_eq!(keysyms::Hiragana, xkb::Hiragana);
    assert_eq!(keysyms::Hiragana_Katakana, xkb::Hiragana_Katakana);
    assert_eq!(keysyms::Zenkaku, xkb::Zenkaku);
    assert_eq!(keysyms::Hankaku, xkb::Hankaku);
    assert_eq!(keysyms::Zenkaku_Hankaku, xkb::Zenkaku_Hankaku);
    assert_eq!(keysyms::Kana_Lock, xkb::Kana_Lock);
    assert_eq!(keysyms::Kana_Shift, xkb::Kana_Shift);
    assert_eq!(keysyms::Eisu_Shift, xkb::Eisu_Shift);
    assert_eq!(keysyms::Eisu_toggle, xkb::Eisu_toggle);
    assert_eq!(keysyms::Home, xkb::Home);
    assert_eq!(keysyms::Left, xkb::Left);
    assert_eq!(keysyms::Up, xkb::Up);
    assert_eq!(keysyms::Right, xkb::Right);
    assert_eq!(keysyms::Down, xkb::Down);
    assert_eq!(keysyms::Page_Up, xkb::Page_Up);
    assert_eq!(keysyms::Page_Down, xkb::Page_Down);
    assert_eq!(keysyms::End, xkb::End);
    assert_eq!(keysyms::Select, xkb::Select);
    assert_eq!(keysyms::Print, xkb::Print);
    assert_eq!(keysyms::Execute, xkb::Execute);
    assert_eq!(keysyms::Insert, xkb::Insert);
    assert_eq!(keysyms::Undo, xkb::Undo);
    assert_eq!(keysyms::Redo, xkb::Redo);
    assert_eq!(keysyms::Menu, xkb::Menu);
    assert_eq!(keysyms::Find, xkb::Find);
    assert_eq!(keysyms::Cancel, xkb::Cancel);
    assert_eq!(keysyms::Help, xkb::Help);
    assert_eq!(keysyms::Break, xkb::Break);
    assert_eq!(keysyms::Mode_switch, xkb::Mode_switch);
    assert_eq!(keysyms::Num_Lock, xkb::Num_Lock);
    assert_eq!(keysyms::KP_Tab, xkb::KP_Tab);
    assert_eq!(keysyms::KP_Enter, xkb::KP_Enter);
    assert_eq!(keysyms::KP_F1, xkb::KP_F1);
    assert_eq!(keysyms::KP_F2, xkb::KP_F2);
    assert_eq!(keysyms::KP_F3, xkb::KP_F3);
    assert_eq!(keysyms::KP_F4, xkb::KP_F4);
    assert_eq!(keysyms::KP_Home, xkb::KP_Home);
    assert_eq!(keysyms::KP_Left, xkb::KP_Left);
    assert_eq!(keysyms::KP_Up, xkb::KP_Up);
    assert_eq!(keysyms::KP_Right, xkb::KP_Right);
    assert_eq!(keysyms::KP_Down, xkb::KP_Down);
    assert_eq!(keysyms::KP_Page_Up, xkb::KP_Page_Up);
    assert_eq!(keysyms::KP_Page_Down, xkb::KP_Page_Down);
    assert_eq!(keysyms::KP_End, xkb::KP_End);
    assert_eq!(keysyms::KP_Insert, xkb::KP_Insert);
    assert_eq!(keysyms::KP_Delete, xkb::KP_Delete);
    assert_eq!(keysyms::F1, xkb::F1);
    assert_eq!(keysyms::F2, xkb::F2);
    assert_eq!(keysyms::F3, xkb::F3);
    assert_eq!(keysyms::F4, xkb::F4);
    assert_eq!(keysyms::F5, xkb::F5);
    assert_eq!(keysyms::F6, xkb::F6);
    assert_eq!(keysyms::F7, xkb::F7);
    assert_eq!(keysyms::F8, xkb::F8);
    assert_eq!(keysyms::F9, xkb::F9);
    assert_eq!(keysyms::F10, xkb::F10);
    assert_eq!(keysyms::F11, xkb::F11);
    assert_eq!(keysyms::F12, xkb::F12);
    assert_eq!(keysyms::F13, xkb::F13);
    assert_eq!(keysyms::F14, xkb::F14);
    assert_eq!(keysyms::F15, xkb::F15);
    assert_eq!(keysyms::F16, xkb::F16);
    assert_eq!(keysyms::F17, xkb::F17);
    assert_eq!(keysyms::F18, xkb::F18);
    assert_eq!(keysyms::F19, xkb::F19);
    assert_eq!(keysyms::F20, xkb::F20);
    assert_eq!(keysyms::F21, xkb::F21);
    assert_eq!(keysyms::F22, xkb::F22);
    assert_eq!(keysyms::F23, xkb::F23);
    assert_eq!(keysyms::F24, xkb::F24);
    assert_eq!(keysyms::F25, xkb::F25);
    assert_eq!(keysyms::F26, xkb::F26);
    assert_eq!(keysyms::F27, xkb::F27);
    assert_eq!(keysyms::F28, xkb::F28);
    assert_eq!(keysyms::F29, xkb::F29);
    assert_eq!(keysyms::F30, xkb::F30);
    assert_eq!(keysyms::F31, xkb::F31);
    assert_eq!(keysyms::F32, xkb::F32);
    assert_eq!(keysyms::F33, xkb::F33);
    assert_eq!(keysyms::F34, xkb::F34);
    assert_eq!(keysyms::F35, xkb::F35);
    assert_eq!(keysyms::Shift_L, xkb::Shift_L);
    assert_eq!(keysyms::Shift_R, xkb::Shift_R);
    assert_eq!(keysyms::Control_L, xkb::Control_L);
    assert_eq!(keysyms::Control_R, xkb::Control_R);
    assert_eq!(keysyms::Caps_Lock, xkb::Caps_Lock);
    assert_eq!(keysyms::Alt_L, xkb::Alt_L);
    assert_eq!(keysyms::Alt_R, xkb::Alt_R);
    assert_eq!(keysyms::Hyper_L, xkb::Hyper_L);
    assert_eq!(keysyms::Hyper_R, xkb::Hyper_R);
    assert_eq!(keysyms::Super_L, xkb::Super_L);
    assert_eq!(keysyms::Super_R, xkb::Super_R);
    assert_eq!(keysyms::ISO_Level3_Shift, xkb::ISO_Level3_Shift);
    assert_eq!(keysyms::ISO_Level3_Latch, xkb::ISO_Level3_Latch);
    assert_eq!(keysyms::ISO_Level3_Lock, xkb::ISO_Level3_Lock);
    assert_eq!(keysyms::ISO_Next_Group, xkb::ISO_Next_Group);
    assert_eq!(keysyms::ISO_Prev_Group, xkb::ISO_Prev_Group);
    assert_eq!(keysyms::ISO_First_Group, xkb::ISO_First_Group);
    assert_eq!(keysyms::ISO_Last_Group, xkb::ISO_Last_Group);
    assert_eq!(keysyms::ISO_Left_Tab, xkb::ISO_Left_Tab);
    assert_eq!(keysyms::ISO_Enter, xkb::ISO_Enter);
    assert_eq!(keysyms::_3270_EraseEOF, xkb::_3270_EraseEOF);
    assert_eq!(keysyms::_3270_Attn, xkb::_3270_Attn);
    assert_eq!(keysyms::_3270_Play, xkb::_3270_Play);
    assert_eq!(keysyms::_3270_ExSelect, xkb::_3270_ExSelect);
    assert_eq!(keysyms::_3270_CursorSelect, xkb::_3270_CursorSelect);
    assert_eq!(keysyms::_3270_PrintScreen, xkb::_3270_PrintScreen);
    assert_eq!(keysyms::_3270_Enter, xkb::_3270_Enter);
    assert_eq!(keysyms::space, xkb::space);
    assert_eq!(keysyms::XF86_MonBrightnessUp, xkb::XF86_MonBrightnessUp);
    assert_eq!(keysyms::XF86_MonBrightnessDown, xkb::XF86_MonBrightnessDown);
    assert_eq!(keysyms::XF86_Standby, xkb::XF86_Standby);
    assert_eq!(keysyms::XF86_AudioLowerVolume, xkb::XF86_AudioLowerVolume);
    assert_eq!(keysyms::XF86_AudioRaiseVolume, xkb::XF86_AudioRaiseVolume);
    assert_eq!(keysyms::XF86_AudioPlay, xkb::XF86_AudioPlay);
    assert_eq!(keysyms::XF86_AudioStop, xkb::XF86_AudioStop);
    assert_eq!(keysyms::XF86_AudioPrev, xkb::XF86_AudioPrev);
    assert_eq!(keysyms::XF86_AudioNext, xkb::XF86_AudioNext);
    assert_eq!(keysyms::XF86_HomePage, xkb::XF86_HomePage);
    assert_eq!(keysyms::XF86_Mail, xkb::XF86_Mail);
    assert_eq!(keysyms::XF86_Search, xkb::XF86_Search);
    assert_eq!(keysyms::XF86_AudioRecord, xkb::XF86_AudioRecord);
    assert_eq!(keysyms::XF86_Calculator, xkb::XF86_Calculator);
    assert_eq!(keysyms::XF86_Calendar, xkb::XF86_Calendar);
    assert_eq!(keysyms::XF86_PowerDown, xkb::XF86_PowerDown);
    assert_eq!(keysyms::XF86_Back, xkb::XF86_Back);
    assert_eq!(keysyms::XF86_Forward, xkb::XF86_Forward);
    assert_eq!(keysyms::XF86_Refresh, xkb::XF86_Refresh);
    assert_eq!(keysyms::XF86_PowerOff, xkb::XF86_PowerOff);
    assert_eq!(keysyms::XF86_WakeUp, xkb::XF86_WakeUp);
    assert_eq!(keysyms::XF86_Eject, xkb::XF86_Eject);
    assert_eq!(keysyms::XF86_ScreenSaver, xkb::XF86_ScreenSaver);
    assert_eq!(keysyms::XF86_WWW, xkb::XF86_WWW);
    assert_eq!(keysyms::XF86_Sleep, xkb::XF86_Sleep);
    assert_eq!(keysyms::XF86_Favorites, xkb::XF86_Favorites);
    assert_eq!(keysyms::XF86_AudioPause, xkb::XF86_AudioPause);
    assert_eq!(keysyms::XF86_MyComputer, xkb::XF86_MyComputer);
    assert_eq!(keysyms::XF86_AudioRewind, xkb::XF86_AudioRewind);
    assert_eq!(keysyms::XF86_Calculater, xkb::XF86_Calculater);
    assert_eq!(keysyms::XF86_Close, xkb::XF86_Close);
    assert_eq!(keysyms::XF86_Copy, xkb::XF86_Copy);
    assert_eq!(keysyms::XF86_Cut, xkb::XF86_Cut);
    assert_eq!(keysyms::XF86_Excel, xkb::XF86_Excel);
    assert_eq!(keysyms::XF86_LogOff, xkb::XF86_LogOff);
    assert_eq!(keysyms::XF86_MySites, xkb::XF86_MySites);
    assert_eq!(keysyms::XF86_New, xkb::XF86_New);
    assert_eq!(keysyms::XF86_Open, xkb::XF86_Open);
    assert_eq!(keysyms::XF86_Paste, xkb::XF86_Paste);
    assert_eq!(keysyms::XF86_Phone, xkb::XF86_Phone);
    assert_eq!(keysyms::XF86_Reply, xkb::XF86_Reply);
    assert_eq!(keysyms::XF86_Reload, xkb::XF86_Reload);
    assert_eq!(keysyms::XF86_Save, xkb::XF86_Save);
    assert_eq!(keysyms::XF86_Send, xkb::XF86_Send);
    assert_eq!(keysyms::XF86_Spell, xkb::XF86_Spell);
    assert_eq!(keysyms::XF86_SplitScreen, xkb::XF86_SplitScreen);
    assert_eq!(keysyms::XF86_Video, xkb::XF86_Video);
    assert_eq!(keysyms::XF86_Word, xkb::XF86_Word);
    assert_eq!(keysyms::XF86_ZoomIn, xkb::XF86_ZoomIn);
    assert_eq!(keysyms::XF86_ZoomOut, xkb::XF86_ZoomOut);
    assert_eq!(keysyms::XF86_WebCam, xkb::XF86_WebCam);
    assert_eq!(keysyms::XF86_MailForward, xkb::XF86_MailForward);
    assert_eq!(keysyms::XF86_Music, xkb::XF86_Music);
    assert_eq!(keysyms::XF86_AudioForward, xkb::XF86_AudioForward);
    assert_eq!(keysyms::XF86_AudioRandomPlay, xkb::XF86_AudioRandomPlay);
    assert_eq!(keysyms::XF86_Subtitle, xkb::XF86_Subtitle);
    assert_eq!(keysyms::XF86_AudioCycleTrack, xkb::XF86_AudioCycleTrack);
    assert_eq!(keysyms::XF86_Suspend, xkb::XF86_Suspend);
    assert_eq!(keysyms::XF86_Hibernate, xkb::XF86_Hibernate);
    assert_eq!(keysyms::XF86_AudioMute, xkb::XF86_AudioMute);
    assert_eq!(keysyms::XF86_Next_VMode, xkb::XF86_Next_VMode);
    assert_eq!(keysyms::SUN_Copy, xkb::SUN_Copy);
    assert_eq!(keysyms::SUN_Open, xkb::SUN_Open);
    assert_eq!(keysyms::SUN_Paste, xkb::SUN_Paste);
    assert_eq!(keysyms::SUN_Cut, xkb::SUN_Cut);
    assert_eq!(keysyms::SUN_AudioLowerVolume, xkb::SUN_AudioLowerVolume);
    assert_eq!(keysyms::SUN_AudioMute, xkb::SUN_AudioMute);
    assert_eq!(keysyms::SUN_AudioRaiseVolume, xkb::SUN_AudioRaiseVolume);
    assert_eq!(keysyms::SUN_VideoLowerBrightness, xkb::SUN_VideoLowerBrightness);
    assert_eq!(keysyms::SUN_VideoRaiseBrightness, xkb::SUN_VideoRaiseBrightness);
    assert_eq!(keysyms::Meta_L, xkb::Meta_L);
    assert_eq!(keysyms::Meta_R, xkb::Meta_R);
    assert_eq!(keysyms::KP_0, xkb::KP_0);
    assert_eq!(keysyms::KP_1, xkb::KP_1);
    assert_eq!(keysyms::KP_2, xkb::KP_2);
    assert_eq!(keysyms::KP_3, xkb::KP_3);
    assert_eq!(keysyms::KP_4, xkb::KP_4);
    assert_eq!(keysyms::KP_5, xkb::KP_5);
    assert_eq!(keysyms::KP_6, xkb::KP_6);
    assert_eq!(keysyms::KP_7, xkb::KP_7);
    assert_eq!(keysyms::KP_8, xkb::KP_8);
    assert_eq!(keysyms::KP_9, xkb::KP_9);
    assert_eq!(keysyms::KP_Space, xkb::KP_Space);
    assert_eq!(keysyms::KP_Begin, xkb::KP_Begin);
    assert_eq!(keysyms::KP_Equal, xkb::KP_Equal);
    assert_eq!(keysyms::KP_Multiply, xkb::KP_Multiply);
    assert_eq!(keysyms::KP_Add, xkb::KP_Add);
    assert_eq!(keysyms::KP_Separator, xkb::KP_Separator);
    assert_eq!(keysyms::KP_Subtract, xkb::KP_Subtract);
    assert_eq!(keysyms::KP_Decimal, xkb::KP_Decimal);
    assert_eq!(keysyms::KP_Divide, xkb::KP_Divide);
}
