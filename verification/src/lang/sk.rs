//! Slovak menu texts.
use vstd::prelude::*;
use crate::lang::keys::lemma_menu_keys_distinct;
use crate::text::{opt_str_view, str_eq};

verus! {
/// The Slovak text of each menu key, `None` for an unknown key.
pub open spec fn spec_t(key: Seq<char>) -> Option<Seq<char>> {
    if key == "about"@ {
        Some("O aplik\u{00e1}cii Luma11y"@)
    } else if key == "hide"@ {
        Some("Skry\u{0165}"@)
    } else if key == "hide_others"@ {
        Some("Skry\u{0165} ostatn\u{00e9}"@)
    } else if key == "show_all"@ {
        Some("Zobrazi\u{0165} v\u{0161}etko"@)
    } else if key == "quit"@ {
        Some("Ukon\u{010d}i\u{0165}"@)
    } else if key == "colour_profiles"@ {
        Some("Farebn\u{00e9} profily"@)
    } else if key == "language"@ {
        Some("Jazyk"@)
    } else if key == "appearance"@ {
        Some("Vzh\u{013e}ad"@)
    } else if key == "appearance_auto"@ {
        Some("Automaticky"@)
    } else if key == "appearance_light"@ {
        Some("Svetl\u{00fd}"@)
    } else if key == "appearance_dark"@ {
        Some("Tmav\u{00fd}"@)
    } else if key == "style_theme"@ {
        Some("\u{0160}t\u{00fd}l"@)
    } else if key == "style_modern"@ {
        Some("Modern\u{00fd}"@)
    } else if key == "style_classic"@ {
        Some("Klasick\u{00fd}"@)
    } else if key == "settings"@ {
        Some("Nastavenia\u{2026}"@)
    } else if key == "settings_title"@ {
        Some("Nastavenia"@)
    } else if key == "edit"@ {
        Some("Upravi\u{0165}"@)
    } else if key == "copy_templates"@ {
        Some("\u{0160}abl\u{00f3}ny kop\u{00ed}rovania"@)
    } else if key == "window"@ {
        Some("Okno"@)
    } else if key == "minimize"@ {
        Some("Minimalizova\u{0165}"@)
    } else if key == "zoom"@ {
        Some("Pribl\u{00ed}\u{017e}i\u{0165}"@)
    } else if key == "close_window"@ {
        Some("Zavrie\u{0165} okno"@)
    } else if key == "fullscreen"@ {
        Some("Prepn\u{00fa}\u{0165} na cel\u{00fa} obrazovku"@)
    } else if key == "always_on_top"@ {
        Some("V\u{017e}dy navrchu"@)
    } else {
        None
    }
}

/// Returns the Slovak translation for a key, or `None` if the key is unknown.
pub fn t(key: &str) -> (res: Option<&'static str>)
    ensures
        opt_str_view(res) == spec_t(key@),
{
    if str_eq(key, "about") {
        Some("O aplik\u{00e1}cii Luma11y")
    } else if str_eq(key, "hide") {
        Some("Skry\u{0165}")
    } else if str_eq(key, "hide_others") {
        Some("Skry\u{0165} ostatn\u{00e9}")
    } else if str_eq(key, "show_all") {
        Some("Zobrazi\u{0165} v\u{0161}etko")
    } else if str_eq(key, "quit") {
        Some("Ukon\u{010d}i\u{0165}")
    } else if str_eq(key, "colour_profiles") {
        Some("Farebn\u{00e9} profily")
    } else if str_eq(key, "language") {
        Some("Jazyk")
    } else if str_eq(key, "appearance") {
        Some("Vzh\u{013e}ad")
    } else if str_eq(key, "appearance_auto") {
        Some("Automaticky")
    } else if str_eq(key, "appearance_light") {
        Some("Svetl\u{00fd}")
    } else if str_eq(key, "appearance_dark") {
        Some("Tmav\u{00fd}")
    } else if str_eq(key, "style_theme") {
        Some("\u{0160}t\u{00fd}l")
    } else if str_eq(key, "style_modern") {
        Some("Modern\u{00fd}")
    } else if str_eq(key, "style_classic") {
        Some("Klasick\u{00fd}")
    } else if str_eq(key, "settings") {
        Some("Nastavenia\u{2026}")
    } else if str_eq(key, "settings_title") {
        Some("Nastavenia")
    } else if str_eq(key, "edit") {
        Some("Upravi\u{0165}")
    } else if str_eq(key, "copy_templates") {
        Some("\u{0160}abl\u{00f3}ny kop\u{00ed}rovania")
    } else if str_eq(key, "window") {
        Some("Okno")
    } else if str_eq(key, "minimize") {
        Some("Minimalizova\u{0165}")
    } else if str_eq(key, "zoom") {
        Some("Pribl\u{00ed}\u{017e}i\u{0165}")
    } else if str_eq(key, "close_window") {
        Some("Zavrie\u{0165} okno")
    } else if str_eq(key, "fullscreen") {
        Some("Prepn\u{00fa}\u{0165} na cel\u{00fa} obrazovku")
    } else if str_eq(key, "always_on_top") {
        Some("V\u{017e}dy navrchu")
    } else {
        None
    }
}

/// The Slovak table, entry by entry: each key gives its listed text.
pub proof fn law_sk_entries()
    ensures
        spec_t("about"@) == Some("O aplik\u{00e1}cii Luma11y"@),
        spec_t("always_on_top"@) == Some("V\u{017e}dy navrchu"@),
        spec_t("appearance"@) == Some("Vzh\u{013e}ad"@),
        spec_t("appearance_auto"@) == Some("Automaticky"@),
        spec_t("appearance_dark"@) == Some("Tmav\u{00fd}"@),
        spec_t("appearance_light"@) == Some("Svetl\u{00fd}"@),
        spec_t("close_window"@) == Some("Zavrie\u{0165} okno"@),
        spec_t("colour_profiles"@) == Some("Farebn\u{00e9} profily"@),
        spec_t("copy_templates"@) == Some("\u{0160}abl\u{00f3}ny kop\u{00ed}rovania"@),
        spec_t("edit"@) == Some("Upravi\u{0165}"@),
        spec_t("fullscreen"@) == Some("Prepn\u{00fa}\u{0165} na cel\u{00fa} obrazovku"@),
        spec_t("hide"@) == Some("Skry\u{0165}"@),
        spec_t("hide_others"@) == Some("Skry\u{0165} ostatn\u{00e9}"@),
        spec_t("language"@) == Some("Jazyk"@),
        spec_t("minimize"@) == Some("Minimalizova\u{0165}"@),
        spec_t("quit"@) == Some("Ukon\u{010d}i\u{0165}"@),
        spec_t("settings"@) == Some("Nastavenia\u{2026}"@),
        spec_t("settings_title"@) == Some("Nastavenia"@),
        spec_t("show_all"@) == Some("Zobrazi\u{0165} v\u{0161}etko"@),
        spec_t("style_classic"@) == Some("Klasick\u{00fd}"@),
        spec_t("style_modern"@) == Some("Modern\u{00fd}"@),
        spec_t("style_theme"@) == Some("\u{0160}t\u{00fd}l"@),
        spec_t("window"@) == Some("Okno"@),
        spec_t("zoom"@) == Some("Pribl\u{00ed}\u{017e}i\u{0165}"@),
{
    lemma_menu_keys_distinct();
}

} // verus!
