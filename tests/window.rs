use cosmic_classic_menu::logic::apps::AppEntry;
use cosmic_classic_menu::window::{Effect, PopupType, PowerAction, Window};

fn entry(id: &str, name: &str, categories: &[&str]) -> AppEntry {
    AppEntry {
        id: id.to_string(),
        name: name.to_string(),
        command: Some(format!("{} %U", id)),
        categories: categories.iter().map(|c| c.to_string()).collect(),
        path: None,
        is_terminal: false,
    }
}

fn all() -> Vec<AppEntry> {
    vec![
        entry("chess", "Chess", &["Game"]),
        entry("files", "Files", &["System", "Utility"]),
        entry("firefox", "Firefox", &["Network"]),
    ]
}

fn ids(apps: &[AppEntry]) -> Vec<String> {
    apps.iter().map(|a| a.id.clone()).collect()
}

fn window() -> Window {
    Window::new(all(), vec!["Game".to_string(), "Utility".to_string()])
}

#[test]
fn window_starts_closed_with_all_apps() {
    let w = window();
    assert_eq!(w.popup, None);
    assert_eq!(w.search_field, "");
    assert_eq!(ids(&w.available_applications), vec!["chess", "files", "firefox"]);
    assert_eq!(w.available_categories.len(), 2);
    assert_eq!(w.popup_type, PopupType::MainMenu);
}

#[test]
fn window_toggle_popup() {
    let mut w = window();
    assert_eq!(w.toggle_popup(PopupType::ContextMenu, 11), vec![Effect::OpenPopup(11)]);
    assert_eq!(w.popup, Some(11));
    assert_eq!(w.popup_type, PopupType::ContextMenu);
    assert_eq!(w.toggle_popup(PopupType::MainMenu, 12), vec![Effect::DestroyPopup(11)]);
    assert_eq!(w.popup, None);
    assert_eq!(w.popup_type, PopupType::MainMenu);
}

#[test]
fn window_search_by_prefix() {
    let mut w = window();
    w.search_field_input("FI".to_string());
    assert_eq!(ids(&w.available_applications), vec!["files", "firefox"]);
    assert_eq!(w.search_field, "FI");
    w.search_field_input("ire".to_string());
    assert!(w.available_applications.is_empty());
    w.search_field_input(String::new());
    assert_eq!(w.available_applications.len(), 3);
}

#[test]
fn window_popup_closed_restores() {
    let mut w = window();
    w.toggle_popup(PopupType::MainMenu, 1);
    w.search_field_input("ch".to_string());
    w.popup_closed(2);
    assert_eq!(w.popup, Some(1));
    assert_eq!(w.search_field, "");
    assert_eq!(w.available_applications.len(), 3);
    w.popup_closed(1);
    assert_eq!(w.popup, None);
}

#[test]
fn window_power_options() {
    let w = window();
    assert!(w.power_option_selected(PowerAction::Logout, true).is_empty());
    assert_eq!(
        w.power_option_selected(PowerAction::Logout, false),
        vec![Effect::Power(PowerAction::Logout)]
    );
    assert_eq!(
        w.power_option_selected(PowerAction::Suspend, true),
        vec![Effect::Power(PowerAction::Suspend)]
    );
}

#[test]
fn window_application_selected() {
    let mut w = window();
    w.toggle_popup(PopupType::MainMenu, 6);
    let app = entry("firefox", "Firefox", &[]);
    let e = w.application_selected(&app);
    assert_eq!(
        e,
        vec![
            Effect::Launch { command: "firefox %U".to_string(), app_id: "firefox".to_string() },
            Effect::DestroyPopup(6),
        ]
    );
    assert_eq!(w.popup, None);
    assert_eq!(w.application_selected(&app).len(), 1);
}

#[test]
fn window_category_selected() {
    let mut w = window();
    w.search_field_input("x".to_string());
    w.category_selected("Utility", all());
    assert_eq!(ids(&w.available_applications), vec!["files"]);
    assert_eq!(w.search_field, "");
    w.category_selected("Office", all());
    assert!(w.available_applications.is_empty());
}
