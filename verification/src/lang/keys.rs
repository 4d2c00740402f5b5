//! Facts about the menu keys that the tables share.

use vstd::prelude::*;

verus! {

/// The length of each menu key and the characters at the positions that tell
/// keys of equal length apart: enough to see that the keys are all different.
pub proof fn lemma_menu_keys_distinct()
    ensures
        "about"@.len() == 5 && "about"@[0] == 'a' && "about"@[1] == 'b',
        "always_on_top"@.len() == 13 && "always_on_top"@[0] == 'a' && "always_on_top"@[1] == 'l' && "always_on_top"@[11] == 'o',
        "appearance"@.len() == 10 && "appearance"@[0] == 'a' && "appearance"@[1] == 'p',
        "appearance_auto"@.len() == 15 && "appearance_auto"@[0] == 'a' && "appearance_auto"@[1] == 'p' && "appearance_auto"@[11] == 'a',
        "appearance_dark"@.len() == 15 && "appearance_dark"@[0] == 'a' && "appearance_dark"@[1] == 'p' && "appearance_dark"@[11] == 'd',
        "appearance_light"@.len() == 16 && "appearance_light"@[0] == 'a' && "appearance_light"@[1] == 'p' && "appearance_light"@[11] == 'l',
        "close_window"@.len() == 12 && "close_window"@[0] == 'c' && "close_window"@[1] == 'l' && "close_window"@[11] == 'w',
        "colour_profiles"@.len() == 15 && "colour_profiles"@[0] == 'c' && "colour_profiles"@[1] == 'o' && "colour_profiles"@[11] == 'i',
        "copy_templates"@.len() == 14 && "copy_templates"@[0] == 'c' && "copy_templates"@[1] == 'o' && "copy_templates"@[11] == 't',
        "edit"@.len() == 4 && "edit"@[0] == 'e' && "edit"@[1] == 'd',
        "fullscreen"@.len() == 10 && "fullscreen"@[0] == 'f' && "fullscreen"@[1] == 'u',
        "hide"@.len() == 4 && "hide"@[0] == 'h' && "hide"@[1] == 'i',
        "hide_others"@.len() == 11 && "hide_others"@[0] == 'h' && "hide_others"@[1] == 'i',
        "language"@.len() == 8 && "language"@[0] == 'l' && "language"@[1] == 'a',
        "minimize"@.len() == 8 && "minimize"@[0] == 'm' && "minimize"@[1] == 'i',
        "quit"@.len() == 4 && "quit"@[0] == 'q' && "quit"@[1] == 'u',
        "settings"@.len() == 8 && "settings"@[0] == 's' && "settings"@[1] == 'e',
        "settings_title"@.len() == 14 && "settings_title"@[0] == 's' && "settings_title"@[1] == 'e' && "settings_title"@[11] == 't',
        "show_all"@.len() == 8 && "show_all"@[0] == 's' && "show_all"@[1] == 'h',
        "style_classic"@.len() == 13 && "style_classic"@[0] == 's' && "style_classic"@[1] == 't' && "style_classic"@[11] == 'i',
        "style_modern"@.len() == 12 && "style_modern"@[0] == 's' && "style_modern"@[1] == 't' && "style_modern"@[11] == 'n',
        "style_theme"@.len() == 11 && "style_theme"@[0] == 's' && "style_theme"@[1] == 't',
        "window"@.len() == 6 && "window"@[0] == 'w' && "window"@[1] == 'i',
        "zoom"@.len() == 4 && "zoom"@[0] == 'z' && "zoom"@[1] == 'o',
{
    reveal_strlit("about");
    reveal_strlit("always_on_top");
    reveal_strlit("appearance");
    reveal_strlit("appearance_auto");
    reveal_strlit("appearance_dark");
    reveal_strlit("appearance_light");
    reveal_strlit("close_window");
    reveal_strlit("colour_profiles");
    reveal_strlit("copy_templates");
    reveal_strlit("edit");
    reveal_strlit("fullscreen");
    reveal_strlit("hide");
    reveal_strlit("hide_others");
    reveal_strlit("language");
    reveal_strlit("minimize");
    reveal_strlit("quit");
    reveal_strlit("settings");
    reveal_strlit("settings_title");
    reveal_strlit("show_all");
    reveal_strlit("style_classic");
    reveal_strlit("style_modern");
    reveal_strlit("style_theme");
    reveal_strlit("window");
    reveal_strlit("zoom");
}

} // verus!
