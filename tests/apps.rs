use cosmic_classic_menu::logic::apps::{
    copy_entries, filter_by_category, language_code, lists_category, same_text, AppEntry,
    ApplicationCategory,
};
use cosmic_classic_menu::logic::order::{is_name_before, sort_by_name};
use cosmic_classic_menu::logic::search::{
    filter_by_fuzzy_name, filter_by_name_prefix, has_prefix, name_matches,
};

fn entry(id: &str, name: &str, categories: &[&str]) -> AppEntry {
    AppEntry {
        id: id.to_string(),
        name: name.to_string(),
        command: Some(format!("{} %U", id)),
        categories: categories.iter().map(|c| c.to_string()).collect(),
        path: None,
        is_terminal: false,
    }
}

fn ids(apps: &[AppEntry]) -> Vec<String> {
    apps.iter().map(|a| a.id.clone()).collect()
}

#[test]
fn category_mime_names() {
    assert_eq!(ApplicationCategory::All.get_mime_name(), "");
    assert_eq!(ApplicationCategory::RecentlyUsed.get_mime_name(), "");
    assert_eq!(ApplicationCategory::Games.get_mime_name(), "Game");
    assert_eq!(ApplicationCategory::Utility.get_mime_name(), "Utility");
    assert_eq!(ApplicationCategory::Development.get_mime_name(), "Development");
}

#[test]
fn category_icon_names() {
    assert_eq!(ApplicationCategory::All.get_icon_name(), "open-menu-symbolic");
    assert_eq!(
        ApplicationCategory::RecentlyUsed.get_icon_name(),
        "document-open-recent-symbolic"
    );
    assert_eq!(
        ApplicationCategory::Development.get_icon_name(),
        "applications-engineering-symbolic"
    );
    assert_eq!(ApplicationCategory::Network.get_icon_name(), "network-workgroup-symbolic");
    assert_eq!(ApplicationCategory::Settings.get_icon_name(), "preferences-system-symbolic");
}

#[test]
fn category_display_names() {
    assert_eq!(ApplicationCategory::All.get_display_name(), "All Applications");
    assert_eq!(ApplicationCategory::RecentlyUsed.get_display_name(), "Recently Used");
    assert_eq!(ApplicationCategory::Utility.get_display_name(), "Utilities");
}

#[test]
fn language_code_takes_two_characters() {
    assert_eq!(language_code("en-US"), "en");
    assert_eq!(language_code("sk_SK.UTF-8"), "sk");
    assert_eq!(language_code("de"), "de");
}

#[test]
fn same_text_compares_characters() {
    assert!(same_text("Game", "Game"));
    assert!(!same_text("Game", "Games"));
    assert!(!same_text("Game", "game"));
    assert!(same_text("", ""));
}

#[test]
fn lists_category_finds_exact_names() {
    let cats = vec!["GTK".to_string(), "Game".to_string()];
    assert!(lists_category(&cats, "Game"));
    assert!(!lists_category(&cats, "Games"));
    assert!(!lists_category(&Vec::new(), "Game"));
}

#[test]
fn filter_by_category_keeps_order() {
    let apps = vec![
        entry("a", "Chess", &["Game", "BoardGame"]),
        entry("b", "Editor", &["Utility"]),
        entry("c", "Mines", &["Game"]),
    ];
    assert_eq!(ids(&filter_by_category(&apps, "Game")), vec!["a", "c"]);
    assert_eq!(ids(&filter_by_category(&apps, "Office")), Vec::<String>::new());
    assert_eq!(ids(&filter_by_category(&Vec::new(), "Game")), Vec::<String>::new());
}

#[test]
fn copy_entries_copies_every_field() {
    let apps = vec![entry("a", "Chess", &["Game"]), entry("b", "Editor", &[])];
    let copy = copy_entries(&apps);
    assert_eq!(ids(&copy), vec!["a", "b"]);
    assert_eq!(copy[0].name, "Chess");
    assert_eq!(copy[0].categories, vec!["Game".to_string()]);
    assert_eq!(copy[0].command, Some("a %U".to_string()));
}

#[test]
fn fuzzy_match_in_order() {
    assert!(name_matches("Firefox", "ffx"));
    assert!(name_matches("Firefox", "fox"));
    assert!(name_matches("Firefox", ""));
    assert!(!name_matches("Firefox", "xf"));
    assert!(!name_matches("Terminal", "xyz"));
}

#[test]
fn fuzzy_match_smart_case() {
    assert!(name_matches("firefox", "fire"));
    assert!(name_matches("Firefox", "fire"));
    assert!(name_matches("Firefox", "Fire"));
    assert!(!name_matches("firefox", "Fire"));
    assert!(!name_matches("Firefox", "FF"));
}

#[test]
fn filter_by_fuzzy_name_keeps_matches() {
    let apps = vec![
        entry("firefox", "Firefox", &[]),
        entry("term", "Terminal", &[]),
        entry("files", "Files", &[]),
    ];
    assert_eq!(ids(&filter_by_fuzzy_name(&apps, "fi")), vec!["firefox", "files"]);
    assert_eq!(ids(&filter_by_fuzzy_name(&apps, "tml")), vec!["term"]);
    assert_eq!(ids(&filter_by_fuzzy_name(&apps, "zzz")), Vec::<String>::new());
}

#[test]
fn has_prefix_cases() {
    assert!(has_prefix("firefox", "fire"));
    assert!(has_prefix("firefox", ""));
    assert!(!has_prefix("fire", "firefox"));
    assert!(!has_prefix("firefox", "Fire"));
}

#[test]
fn filter_by_name_prefix_ignores_case() {
    let apps = vec![
        entry("firefox", "Firefox", &[]),
        entry("term", "Terminal", &[]),
        entry("files", "FILES", &[]),
    ];
    assert_eq!(ids(&filter_by_name_prefix(&apps, "FI")), vec!["firefox", "files"]);
    assert_eq!(ids(&filter_by_name_prefix(&apps, "ter")), vec!["term"]);
    assert_eq!(ids(&filter_by_name_prefix(&apps, "ir")), Vec::<String>::new());
}

#[test]
fn name_order_is_lexicographic() {
    assert!(is_name_before("ab", "b"));
    assert!(is_name_before("ab", "abc"));
    assert!(!is_name_before("abc", "ab"));
    assert!(!is_name_before("ab", "ab"));
    assert!(is_name_before("Zed", "apple"));
    assert!(is_name_before("", "a"));
}

#[test]
fn sort_by_name_orders_and_keeps_ties() {
    let apps = vec![
        entry("t", "Terminal", &[]),
        entry("f1", "Files", &[]),
        entry("a", "Archive", &[]),
        entry("f2", "Files", &[]),
        entry("f3", "Files", &[]),
    ];
    let sorted = sort_by_name(apps);
    assert_eq!(ids(&sorted), vec!["a", "f1", "f2", "f3", "t"]);
}

#[test]
fn sort_by_name_empty_and_single() {
    assert!(sort_by_name(Vec::new()).is_empty());
    let one = sort_by_name(vec![entry("x", "X", &[])]);
    assert_eq!(ids(&one), vec!["x"]);
}

#[test]
fn category_text_is_mime_name() {
    assert_eq!(ApplicationCategory::Games.to_string(), "Game");
    assert_eq!(ApplicationCategory::All.to_string(), "");
}
