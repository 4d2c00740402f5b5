//! French menu texts.
use vstd::prelude::*;
use crate::lang::keys::lemma_menu_keys_distinct;
use crate::text::{opt_str_view, str_eq};

verus! {
/// The French text of each menu key, `None` for an unknown key.
pub open spec fn spec_t(key: Seq<char>) -> Option<Seq<char>> {
    if key == "about"@ {
        Some("\u{00c0} propos de Luma11y"@)
    } else if key == "hide"@ {
        Some("Masquer"@)
    } else if key == "hide_others"@ {
        Some("Masquer les autres"@)
    } else if key == "show_all"@ {
        Some("Tout afficher"@)
    } else if key == "quit"@ {
        Some("Quitter"@)
    } else if key == "colour_profiles"@ {
        Some("Profils de couleurs"@)
    } else if key == "language"@ {
        Some("Langue"@)
    } else if key == "appearance"@ {
        Some("Apparence"@)
    } else if key == "appearance_auto"@ {
        Some("Auto"@)
    } else if key == "appearance_light"@ {
        Some("Clair"@)
    } else if key == "appearance_dark"@ {
        Some("Sombre"@)
    } else if key == "style_theme"@ {
        Some("Style"@)
    } else if key == "style_modern"@ {
        Some("Moderne"@)
    } else if key == "style_classic"@ {
        Some("Classique"@)
    } else if key == "settings"@ {
        Some("Pr\u{00e9}f\u{00e9}rences\u{2026}"@)
    } else if key == "settings_title"@ {
        Some("Pr\u{00e9}f\u{00e9}rences"@)
    } else if key == "edit"@ {
        Some("\u{00c9}dition"@)
    } else if key == "copy_templates"@ {
        Some("Mod\u{00e8}les de copie"@)
    } else if key == "window"@ {
        Some("Fen\u{00ea}tre"@)
    } else if key == "minimize"@ {
        Some("R\u{00e9}duire"@)
    } else if key == "zoom"@ {
        Some("Zoom"@)
    } else if key == "close_window"@ {
        Some("Fermer la fen\u{00ea}tre"@)
    } else if key == "fullscreen"@ {
        Some("Activer/d\u{00e9}sactiver le plein \u{00e9}cran"@)
    } else if key == "always_on_top"@ {
        Some("Toujours au premier plan"@)
    } else {
        None
    }
}

/// Returns the French translation for a key, or `None` if the key is unknown.
pub fn t(key: &str) -> (res: Option<&'static str>)
    ensures
        opt_str_view(res) == spec_t(key@),
{
    if str_eq(key, "about") {
        Some("\u{00c0} propos de Luma11y")
    } else if str_eq(key, "hide") {
        Some("Masquer")
    } else if str_eq(key, "hide_others") {
        Some("Masquer les autres")
    } else if str_eq(key, "show_all") {
        Some("Tout afficher")
    } else if str_eq(key, "quit") {
        Some("Quitter")
    } else if str_eq(key, "colour_profiles") {
        Some("Profils de couleurs")
    } else if str_eq(key, "language") {
        Some("Langue")
    } else if str_eq(key, "appearance") {
        Some("Apparence")
    } else if str_eq(key, "appearance_auto") {
        Some("Auto")
    } else if str_eq(key, "appearance_light") {
        Some("Clair")
    } else if str_eq(key, "appearance_dark") {
        Some("Sombre")
    } else if str_eq(key, "style_theme") {
        Some("Style")
    } else if str_eq(key, "style_modern") {
        Some("Moderne")
    } else if str_eq(key, "style_classic") {
        Some("Classique")
    } else if str_eq(key, "settings") {
        Some("Pr\u{00e9}f\u{00e9}rences\u{2026}")
    } else if str_eq(key, "settings_title") {
        Some("Pr\u{00e9}f\u{00e9}rences")
    } else if str_eq(key, "edit") {
        Some("\u{00c9}dition")
    } else if str_eq(key, "copy_templates") {
        Some("Mod\u{00e8}les de copie")
    } else if str_eq(key, "window") {
        Some("Fen\u{00ea}tre")
    } else if str_eq(key, "minimize") {
        Some("R\u{00e9}duire")
    } else if str_eq(key, "zoom") {
        Some("Zoom")
    } else if str_eq(key, "close_window") {
        Some("Fermer la fen\u{00ea}tre")
    } else if str_eq(key, "fullscreen") {
        Some("Activer/d\u{00e9}sactiver le plein \u{00e9}cran")
    } else if str_eq(key, "always_on_top") {
        Some("Toujours au premier plan")
    } else {
        None
    }
}

/// The French table, entry by entry: each key gives its listed text.
pub proof fn law_fr_entries()
    ensures
        spec_t("about"@) == Some("\u{00c0} propos de Luma11y"@),
        spec_t("always_on_top"@) == Some("Toujours au premier plan"@),
        spec_t("appearance"@) == Some("Apparence"@),
        spec_t("appearance_auto"@) == Some("Auto"@),
        spec_t("appearance_dark"@) == Some("Sombre"@),
        spec_t("appearance_light"@) == Some("Clair"@),
        spec_t("close_window"@) == Some("Fermer la fen\u{00ea}tre"@),
        spec_t("colour_profiles"@) == Some("Profils de couleurs"@),
        spec_t("copy_templates"@) == Some("Mod\u{00e8}les de copie"@),
        spec_t("edit"@) == Some("\u{00c9}dition"@),
        spec_t("fullscreen"@) == Some("Activer/d\u{00e9}sactiver le plein \u{00e9}cran"@),
        spec_t("hide"@) == Some("Masquer"@),
        spec_t("hide_others"@) == Some("Masquer les autres"@),
        spec_t("language"@) == Some("Langue"@),
        spec_t("minimize"@) == Some("R\u{00e9}duire"@),
        spec_t("quit"@) == Some("Quitter"@),
        spec_t("settings"@) == Some("Pr\u{00e9}f\u{00e9}rences\u{2026}"@),
        spec_t("settings_title"@) == Some("Pr\u{00e9}f\u{00e9}rences"@),
        spec_t("show_all"@) == Some("Tout afficher"@),
        spec_t("style_classic"@) == Some("Classique"@),
        spec_t("style_modern"@) == Some("Moderne"@),
        spec_t("style_theme"@) == Some("Style"@),
        spec_t("window"@) == Some("Fen\u{00ea}tre"@),
        spec_t("zoom"@) == Some("Zoom"@),
{
    lemma_menu_keys_distinct();
}

} // verus!
