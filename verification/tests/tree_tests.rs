use std::cmp::Ordering;
use churrera_studio::text::{ends_with, str_equal};
use churrera_studio::tree::{entry_order, names_in_order, file_action, file_icon, import_filter, is_hidden_entry, opens_by_default, ImportFilter, TreeAction};

#[test]
fn suffixes_and_equality() {
    assert!(ends_with("level.spt", ".spt"));
    assert!(!ends_with("spt", ".spt"));
    assert!(ends_with("ключ.h", ".h"));
    assert!(ends_with("", ""));
    assert!(str_equal("config.h", "config.h"));
    assert!(!str_equal("config.h", "config.hh"));
}

#[test]
fn hidden_and_open_folders() {
    assert!(is_hidden_entry(".git"));
    assert!(!is_hidden_entry("gfx"));
    assert!(!is_hidden_entry(""));
    assert!(opens_by_default("script"));
    assert!(opens_by_default("gfx"));
    assert!(!opens_by_default("dev"));
}

#[test]
fn icons() {
    assert_eq!(file_icon("a.spt"), "📜 ");
    assert_eq!(file_icon("config.h"), "⚙️ ");
    assert_eq!(file_icon("work.png"), "🖼 ");
    assert_eq!(file_icon("notes.txt"), "📄 ");
}

#[test]
fn double_click_actions() {
    assert_eq!(file_action("config.h", false, true), Some(TreeAction::Configurator));
    assert_eq!(file_action("enems.h", false, true), Some(TreeAction::LoadIntoScriptEditor));
    assert_eq!(file_action("enems.h", false, false), None);
    assert_eq!(file_action("game.spt", true, false), Some(TreeAction::ScriptEditor));
    assert_eq!(file_action("game.spt", false, false), None);
    assert_eq!(file_action("mapa.map", false, false), Some(TreeAction::MapCanvas));
    assert_eq!(file_action("game.prj", true, true), Some(TreeAction::MapCanvas));
}

#[test]
fn import_filters() {
    assert_eq!(import_filter("gfx"), Some(ImportFilter::Images));
    assert_eq!(import_filter("mus"), Some(ImportFilter::Music));
    assert_eq!(import_filter("map"), None);
    assert_eq!(ImportFilter::Images.extensions(), vec!["png", "PNG"]);
    assert_eq!(ImportFilter::Music.extensions(), vec!["pt3", "mus"]);
    assert_eq!(ImportFilter::Headers.label(true), "C Header Files (.h)");
    assert_eq!(ImportFilter::Scripts.label(false), "Скрипты (.spt)");
}

#[test]
fn listing_order_folders_first_then_names() {
    assert_eq!(entry_order(true, false, "zz", false, true, "aa"), Ordering::Less);
    assert_eq!(entry_order(false, true, "aa", true, false, "zz"), Ordering::Greater);
    assert_eq!(entry_order(true, false, "gfx", true, false, "map"), Ordering::Less);
    assert_eq!(entry_order(false, true, "b.png", false, true, "a.png"), Ordering::Greater);
    assert_eq!(entry_order(false, true, "map", false, true, "map.prj"), Ordering::Less);
    assert_eq!(entry_order(false, true, "Z", false, true, "a"), Ordering::Less);
    assert_eq!(entry_order(false, true, "same", false, true, "same"), Ordering::Equal);
    assert!(names_in_order("abc", "abd"));
    assert!(!names_in_order("abd", "abc"));
    assert!(!names_in_order("", ""));
    assert!(names_in_order("", "a"));
    for (a, b) in [("x", "y"), ("ю", "я"), ("a", "é"), ("10", "9")] {
        assert_eq!(names_in_order(a, b), a < b);
        assert_eq!(names_in_order(b, a), b < a);
    }
}
