use luma11y::i18n::menu_t;
use luma11y::lang::{en, fr, sk};
use luma11y::menu::{
    copy_template_menu_id, is_profile_menu_id, menu_command, menu_id_to_profile_name,
    profile_name_to_menu_id, Appearance, MenuCommand, StyleTheme,
};

#[test]
fn tables_translate_known_keys() {
    assert_eq!(en::t("about"), Some("About Luma11y"));
    assert_eq!(en::t("settings"), Some("Settings\u{2026}"));
    assert_eq!(fr::t("about"), Some("\u{c0} propos de Luma11y"));
    assert_eq!(fr::t("quit"), Some("Quitter"));
    assert_eq!(sk::t("zoom"), Some("Pribl\u{ed}\u{17e}i\u{165}"));
    assert_eq!(sk::t("always_on_top"), Some("V\u{17e}dy navrchu"));
}

#[test]
fn tables_know_nothing_else() {
    assert_eq!(en::t("nope"), None);
    assert_eq!(fr::t(""), None);
    assert_eq!(sk::t("About"), None);
}

#[test]
fn tables_share_keys_on_examples() {
    for key in ["about", "hide", "edit", "window", "fullscreen", "always_on_top", "x"] {
        assert_eq!(en::t(key).is_some(), fr::t(key).is_some());
        assert_eq!(en::t(key).is_some(), sk::t(key).is_some());
    }
}

#[test]
fn menu_t_dispatches_by_locale() {
    assert_eq!(menu_t("en", "quit"), "Quit");
    assert_eq!(menu_t("fr", "quit"), "Quitter");
    assert_eq!(menu_t("fr", "zoom"), "Zoom");
    assert_eq!(menu_t("sk", "quit"), "Ukon\u{10d}i\u{165}");
    assert_eq!(menu_t("sk", "window"), "Okno");
}

#[test]
fn menu_t_falls_back_to_english() {
    assert_eq!(menu_t("de", "about"), "About Luma11y");
    assert_eq!(menu_t("SK", "quit"), "Quit");
    assert_eq!(menu_t("", "minimize"), "Minimize");
}

#[test]
fn menu_t_unknown_key() {
    assert_eq!(menu_t("en", "nope"), "?");
    assert_eq!(menu_t("fr", "nope"), "?");
    assert_eq!(menu_t("sk", "nope"), "?");
}

#[test]
fn copy_template_ids_round_trip() {
    assert_eq!(copy_template_menu_id(0), "copy_template_0");
    assert_eq!(copy_template_menu_id(42), "copy_template_42");
    for i in [0usize, 7, 10, 123456, usize::MAX] {
        assert_eq!(menu_command(&copy_template_menu_id(i)), MenuCommand::CopyTemplate(i));
    }
}

#[test]
fn menu_command_reads_template_indices_like_parse() {
    assert_eq!(menu_command("copy_template_+4"), MenuCommand::CopyTemplate(4));
    assert_eq!(menu_command("copy_template_007"), MenuCommand::CopyTemplate(7));
    assert_eq!(menu_command("copy_template_"), MenuCommand::Ignore);
    assert_eq!(menu_command("copy_template_+"), MenuCommand::Ignore);
    assert_eq!(menu_command("copy_template_-1"), MenuCommand::Ignore);
    assert_eq!(menu_command("copy_template_1x"), MenuCommand::Ignore);
    assert_eq!(
        menu_command("copy_template_99999999999999999999999999"),
        MenuCommand::Ignore
    );
}

#[test]
fn menu_command_other_items() {
    assert_eq!(menu_command("settings"), MenuCommand::OpenSettings);
    assert_eq!(menu_command("appearance_auto"), MenuCommand::SetAppearance(Appearance::Auto));
    assert_eq!(menu_command("appearance_light"), MenuCommand::SetAppearance(Appearance::Light));
    assert_eq!(menu_command("appearance_dark"), MenuCommand::SetAppearance(Appearance::Dark));
    assert_eq!(menu_command("style_modern"), MenuCommand::SetStyle(StyleTheme::Modern));
    assert_eq!(menu_command("style_classic"), MenuCommand::SetStyle(StyleTheme::Classic));
    assert_eq!(menu_command("always_on_top"), MenuCommand::ToggleAlwaysOnTop);
    assert_eq!(menu_command("icc_profile_display_p3"), MenuCommand::Other);
    assert_eq!(menu_command("Settings"), MenuCommand::Other);
}

#[test]
fn mode_names() {
    assert_eq!(Appearance::Auto.as_str(), "auto");
    assert_eq!(Appearance::Light.as_str(), "light");
    assert_eq!(Appearance::Dark.as_str(), "dark");
    assert_eq!(StyleTheme::Modern.as_str(), "modern");
    assert_eq!(StyleTheme::Classic.as_str(), "classic");
}

#[test]
fn profile_menu_ids_are_lowercased_with_underscores() {
    assert_eq!(profile_name_to_menu_id("Display P3"), "icc_profile_display_p3");
    assert_eq!(
        profile_name_to_menu_id("sRGB IEC61966-2.1"),
        "icc_profile_srgb_iec61966-2.1"
    );
    assert_eq!(profile_name_to_menu_id("\u{c9}CRAN  A"), "icc_profile_\u{e9}cran__a");
}

#[test]
fn profile_found_from_its_menu_id() {
    let profiles = vec![
        "Color LCD".to_string(),
        "Display P3".to_string(),
        "display p3".to_string(),
    ];
    assert_eq!(
        menu_id_to_profile_name("icc_profile_color_lcd", &profiles),
        Some("Color LCD".to_string())
    );
    assert_eq!(
        menu_id_to_profile_name(&profile_name_to_menu_id("display p3"), &profiles),
        Some("Display P3".to_string())
    );
    assert_eq!(menu_id_to_profile_name("icc_profile_nothing", &profiles), None);
    assert_eq!(menu_id_to_profile_name("color_lcd", &profiles), None);
    assert_eq!(menu_id_to_profile_name("icc_profile_color_lcd", &Vec::new()), None);
}

#[test]
fn profile_menu_ids_have_the_prefix() {
    assert!(is_profile_menu_id("icc_profile_display_p3"));
    assert!(is_profile_menu_id("icc_profile_"));
    assert!(!is_profile_menu_id("settings"));
    assert!(!is_profile_menu_id("icc_profile"));
}
