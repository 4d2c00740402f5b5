//! English menu texts.
use vstd::prelude::*;
use crate::lang::keys::lemma_menu_keys_distinct;
use crate::text::{opt_str_view, str_eq};

verus! {
/// The English text of each menu key, `None` for an unknown key.
pub open spec fn spec_t(key: Seq<char>) -> Option<Seq<char>> {
    if key == "about"@ {
        Some("About Luma11y"@)
    } else if key == "hide"@ {
        Some("Hide"@)
    } else if key == "hide_others"@ {
        Some("Hide Others"@)
    } else if key == "show_all"@ {
        Some("Show All"@)
    } else if key == "quit"@ {
        Some("Quit"@)
    } else if key == "colour_profiles"@ {
        Some("Colour Profiles"@)
    } else if key == "language"@ {
        Some("Language"@)
    } else if key == "appearance"@ {
        Some("Appearance"@)
    } else if key == "appearance_auto"@ {
        Some("Auto"@)
    } else if key == "appearance_light"@ {
        Some("Light"@)
    } else if key == "appearance_dark"@ {
        Some("Dark"@)
    } else if key == "style_theme"@ {
        Some("Style"@)
    } else if key == "style_modern"@ {
        Some("Modern"@)
    } else if key == "style_classic"@ {
        Some("Classic"@)
    } else if key == "settings"@ {
        Some("Settings\u{2026}"@)
    } else if key == "settings_title"@ {
        Some("Settings"@)
    } else if key == "edit"@ {
        Some("Edit"@)
    } else if key == "copy_templates"@ {
        Some("Copy Templates"@)
    } else if key == "window"@ {
        Some("Window"@)
    } else if key == "minimize"@ {
        Some("Minimize"@)
    } else if key == "zoom"@ {
        Some("Zoom"@)
    } else if key == "close_window"@ {
        Some("Close Window"@)
    } else if key == "fullscreen"@ {
        Some("Toggle Full Screen"@)
    } else if key == "always_on_top"@ {
        Some("Always on Top"@)
    } else {
        None
    }
}

/// Returns the English translation for a key, or `None` if the key is unknown.
pub fn t(key: &str) -> (res: Option<&'static str>)
    ensures
        opt_str_view(res) == spec_t(key@),
{
    if str_eq(key, "about") {
        Some("About Luma11y")
    } else if str_eq(key, "hide") {
        Some("Hide")
    } else if str_eq(key, "hide_others") {
        Some("Hide Others")
    } else if str_eq(key, "show_all") {
        Some("Show All")
    } else if str_eq(key, "quit") {
        Some("Quit")
    } else if str_eq(key, "colour_profiles") {
        Some("Colour Profiles")
    } else if str_eq(key, "language") {
        Some("Language")
    } else if str_eq(key, "appearance") {
        Some("Appearance")
    } else if str_eq(key, "appearance_auto") {
        Some("Auto")
    } else if str_eq(key, "appearance_light") {
        Some("Light")
    } else if str_eq(key, "appearance_dark") {
        Some("Dark")
    } else if str_eq(key, "style_theme") {
        Some("Style")
    } else if str_eq(key, "style_modern") {
        Some("Modern")
    } else if str_eq(key, "style_classic") {
        Some("Classic")
    } else if str_eq(key, "settings") {
        Some("Settings\u{2026}")
    } else if str_eq(key, "settings_title") {
        Some("Settings")
    } else if str_eq(key, "edit") {
        Some("Edit")
    } else if str_eq(key, "copy_templates") {
        Some("Copy Templates")
    } else if str_eq(key, "window") {
        Some("Window")
    } else if str_eq(key, "minimize") {
        Some("Minimize")
    } else if str_eq(key, "zoom") {
        Some("Zoom")
    } else if str_eq(key, "close_window") {
        Some("Close Window")
    } else if str_eq(key, "fullscreen") {
        Some("Toggle Full Screen")
    } else if str_eq(key, "always_on_top") {
        Some("Always on Top")
    } else {
        None
    }
}

/// The English table, entry by entry: each key gives its listed text.
pub proof fn law_en_entries()
    ensures
        spec_t("about"@) == Some("About Luma11y"@),
        spec_t("always_on_top"@) == Some("Always on Top"@),
        spec_t("appearance"@) == Some("Appearance"@),
        spec_t("appearance_auto"@) == Some("Auto"@),
        spec_t("appearance_dark"@) == Some("Dark"@),
        spec_t("appearance_light"@) == Some("Light"@),
        spec_t("close_window"@) == Some("Close Window"@),
        spec_t("colour_profiles"@) == Some("Colour Profiles"@),
        spec_t("copy_templates"@) == Some("Copy Templates"@),
        spec_t("edit"@) == Some("Edit"@),
        spec_t("fullscreen"@) == Some("Toggle Full Screen"@),
        spec_t("hide"@) == Some("Hide"@),
        spec_t("hide_others"@) == Some("Hide Others"@),
        spec_t("language"@) == Some("Language"@),
        spec_t("minimize"@) == Some("Minimize"@),
        spec_t("quit"@) == Some("Quit"@),
        spec_t("settings"@) == Some("Settings\u{2026}"@),
        spec_t("settings_title"@) == Some("Settings"@),
        spec_t("show_all"@) == Some("Show All"@),
        spec_t("style_classic"@) == Some("Classic"@),
        spec_t("style_modern"@) == Some("Modern"@),
        spec_t("style_theme"@) == Some("Style"@),
        spec_t("window"@) == Some("Window"@),
        spec_t("zoom"@) == Some("Zoom"@),
{
    lemma_menu_keys_distinct();
}

} // verus!
