use lcx::home::{
    bar_cells, menu_item_at, progress_bar, Focus, Home, HomeAction, KeyCode, KeyInput, MenuItem,
    Profile, RefreshOutcome,
};
use lcx::models::{DifficultyStat, ProfileStats};

fn key(code: KeyCode) -> KeyInput {
    KeyInput { code, ctrl: false, press: true }
}

fn langs() -> Vec<String> {
    ["cpp", "python3", "rust"].iter().map(|s| s.to_string()).collect()
}

fn home() -> Home {
    Home::new(langs(), "rust".to_string())
}

fn slugs(v: &[&str]) -> Vec<String> {
    v.iter().map(|s| s.to_string()).collect()
}

#[test]
fn new_screen() {
    let h = home();
    assert_eq!(h.search(), "");
    assert_eq!(h.focus(), Focus::Search);
    assert_eq!(h.menu_selected(), 0);
    assert_eq!(h.selected(), None);
    assert_eq!(h.status(), "Type to search \u{2022} <Tab> switches to the menu.");
    assert!(matches!(h.profile(), Profile::Loading));
    assert!(!h.quit());
}

#[test]
fn typing_refilters_and_backspace_undoes() {
    let mut h = home();
    assert_eq!(h.handle_key(key(KeyCode::Char('t'))), HomeAction::Refilter);
    assert_eq!(h.handle_key(key(KeyCode::Char('w'))), HomeAction::Refilter);
    assert_eq!(h.search(), "tw");
    assert_eq!(h.handle_key(key(KeyCode::Backspace)), HomeAction::Refilter);
    assert_eq!(h.search(), "t");
    // Ctrl-held characters are not typed.
    let ctrl = KeyInput { code: KeyCode::Char('c'), ctrl: true, press: true };
    assert_eq!(h.handle_key(ctrl), HomeAction::Nothing);
    assert_eq!(h.search(), "t");
    // Releases are ignored.
    let release = KeyInput { code: KeyCode::Char('x'), ctrl: false, press: false };
    assert_eq!(h.handle_key(release), HomeAction::Nothing);
    assert_eq!(h.search(), "t");
}

#[test]
fn search_query_trims() {
    let mut h = home();
    assert_eq!(h.search_query(), None);
    for c in "  two ".chars() {
        h.handle_key(key(KeyCode::Char(c)));
    }
    assert_eq!(h.search_query(), Some("two".to_string()));
}

#[test]
fn results_selection_moves_and_opens() {
    let mut h = home();
    h.set_results(slugs(&["two-sum", "add-two-numbers", "3sum"]));
    assert_eq!(h.selected(), Some(0));
    assert_eq!(h.results_len(), 3);
    h.handle_key(key(KeyCode::Up));
    assert_eq!(h.selected(), Some(0));
    h.handle_key(key(KeyCode::Down));
    h.handle_key(key(KeyCode::Down));
    h.handle_key(key(KeyCode::Down));
    assert_eq!(h.selected(), Some(2));
    h.handle_key(key(KeyCode::Enter));
    assert_eq!(h.take_open_solve(), Some("3sum".to_string()));
    assert_eq!(h.take_open_solve(), None);
    h.set_results(Vec::new());
    assert_eq!(h.selected(), None);
    h.handle_key(key(KeyCode::Down));
    assert_eq!(h.selected(), None);
    assert_eq!(h.results_title(10), " Problems (0 / 10) ");
}

#[test]
fn menu_ring_and_labels() {
    let mut h = home();
    h.handle_key(key(KeyCode::Tab));
    assert_eq!(h.focus(), Focus::Menu);
    h.handle_key(key(KeyCode::Up));
    assert_eq!(h.menu_selected(), 4);
    assert_eq!(menu_item_at(4), MenuItem::Quit);
    h.handle_key(key(KeyCode::Down));
    assert_eq!(h.menu_selected(), 0);
    assert_eq!(MenuItem::SetLang.label("rust"), "Set default language (rust)");
    assert_eq!(MenuItem::Login.label("rust"), "Log in / switch account");
    assert_eq!(MenuItem::DeleteCache.label("rust"), "Delete cache");
    assert_eq!(MenuItem::ResetConfig.label("rust"), "Reset config");
    assert_eq!(MenuItem::Quit.label("rust"), "Quit");
    h.handle_key(key(KeyCode::Tab));
    assert_eq!(h.focus(), Focus::Search);
}

#[test]
fn language_picker() {
    let mut h = home();
    h.handle_key(key(KeyCode::Tab));
    assert_eq!(h.handle_key(key(KeyCode::Enter)), HomeAction::Nothing);
    assert_eq!(h.lang_picker(), Some(2));
    h.handle_key(key(KeyCode::Char('j')));
    assert_eq!(h.lang_picker(), Some(0));
    h.handle_key(key(KeyCode::Char('k')));
    h.handle_key(key(KeyCode::Up));
    assert_eq!(h.lang_picker(), Some(1));
    assert_eq!(h.handle_key(key(KeyCode::Enter)), HomeAction::SaveLang);
    assert_eq!(h.lang_picker(), None);
    assert_eq!(h.lang(), "python3");
    h.lang_saved(None);
    assert_eq!(h.status(), "Default language set to python3.");
    h.lang_saved(Some("disk full"));
    assert_eq!(h.status(), "Failed to save config: disk full");
    h.handle_key(key(KeyCode::Enter));
    assert_eq!(h.lang_picker(), Some(1));
    h.handle_key(key(KeyCode::Esc));
    assert_eq!(h.lang_picker(), None);
    assert_eq!(h.status(), "Language unchanged.");
    assert!(!h.quit());
}

#[test]
fn picker_opens_at_top_for_unknown_language() {
    let mut h = Home::new(langs(), "cobol".to_string());
    h.handle_key(key(KeyCode::Tab));
    h.handle_key(key(KeyCode::Enter));
    assert_eq!(h.lang_picker(), Some(0));
}

#[test]
fn confirmations() {
    let mut h = home();
    h.handle_key(key(KeyCode::Tab));
    h.handle_key(key(KeyCode::Down));
    h.handle_key(key(KeyCode::Down));
    h.handle_key(key(KeyCode::Enter));
    assert_eq!(h.confirm(), Some(MenuItem::DeleteCache));
    assert_eq!(h.status(), "Delete cache? Press <y> to confirm, any other key to cancel.");
    assert_eq!(h.handle_key(key(KeyCode::Char('y'))), HomeAction::DeleteCache);
    assert_eq!(h.confirm(), None);
    assert_eq!(h.cache_deleted(None), HomeAction::Refilter);
    assert_eq!(h.status(), "Cache deleted.");
    assert_eq!(h.cache_deleted(Some("locked")), HomeAction::Nothing);
    assert_eq!(h.status(), "Failed to delete cache: locked");

    h.handle_key(key(KeyCode::Down));
    h.handle_key(key(KeyCode::Enter));
    assert_eq!(h.confirm(), Some(MenuItem::ResetConfig));
    assert_eq!(h.handle_key(key(KeyCode::Char('n'))), HomeAction::Nothing);
    assert_eq!(h.status(), "Cancelled.");
    h.handle_key(key(KeyCode::Enter));
    assert_eq!(h.handle_key(key(KeyCode::Char('Y'))), HomeAction::ResetConfig);
    h.config_reset("python3".to_string(), None);
    assert_eq!(h.lang(), "python3");
    assert_eq!(h.status(), "Config reset to defaults (session cleared).");
    h.config_reset("cpp".to_string(), Some("denied"));
    assert_eq!(h.status(), "Failed to reset config: denied");
}

#[test]
fn global_keys() {
    let mut h = home();
    h.handle_key(key(KeyCode::F(1)));
    assert!(h.take_open_login());
    assert!(!h.take_open_login());
    assert_eq!(h.handle_key(key(KeyCode::F(5))), HomeAction::Refresh);
    assert_eq!(h.status(), "Updating problem list... (fetching from LeetCode)");
    assert_eq!(h.refresh_finished(&RefreshOutcome::Updated(3521)), HomeAction::Refilter);
    assert_eq!(h.status(), "Updated 3521 problems.");
    assert_eq!(
        h.refresh_finished(&RefreshOutcome::FetchFailed("timeout".to_string())),
        HomeAction::Nothing
    );
    assert_eq!(h.status(), "Update failed: timeout");
    h.refresh_finished(&RefreshOutcome::ClientError("bad cookie".to_string()));
    assert_eq!(h.status(), "Client error: bad cookie");
    h.refresh_finished(&RefreshOutcome::CacheWriteFailed("ro".to_string()));
    assert_eq!(h.status(), "Cache write failed: ro");
    h.handle_key(key(KeyCode::Esc));
    assert!(h.quit());
}

#[test]
fn menu_quit_and_login() {
    let mut h = home();
    h.handle_key(key(KeyCode::Tab));
    h.handle_key(key(KeyCode::Down));
    h.handle_key(key(KeyCode::Enter));
    assert!(h.take_open_login());
    h.login_finished(Some("alice"));
    assert_eq!(h.status(), "Logged in as alice.");
    h.login_finished(None);
    assert_eq!(h.status(), "Login cancelled.");
    h.solve_failed("404");
    assert_eq!(h.status(), "Could not open problem: 404");
    h.handle_key(key(KeyCode::Up));
    h.handle_key(key(KeyCode::Up));
    h.handle_key(key(KeyCode::Enter));
    assert!(h.quit());
}

#[test]
fn profile_panel() {
    let mut h = home();
    assert!(!h.begin_profile_load(false));
    assert!(matches!(h.profile(), Profile::Unavailable(m) if m == "Not logged in."));
    assert!(h.begin_profile_load(true));
    assert!(matches!(h.profile(), Profile::Loading));
    h.profile_failed(false, "429");
    assert!(matches!(h.profile(), Profile::Unavailable(m) if m == "Could not load profile: 429"));
    h.profile_failed(true, "no cookie");
    assert!(matches!(h.profile(), Profile::Unavailable(m) if m == "Client error: no cookie"));
    let stat = |s, t| DifficultyStat { solved: s, total: t };
    h.profile_loaded(ProfileStats {
        username: "alice".to_string(),
        easy: stat(1, 2),
        medium: stat(0, 3),
        hard: stat(0, 1),
        total: stat(1, 6),
    });
    assert!(matches!(h.profile(), Profile::Ready(p) if p.username == "alice" && p.total.total == 6));
}

#[test]
fn bars() {
    assert_eq!(bar_cells(0), 6);
    assert_eq!(bar_cells(40), 10);
    assert_eq!(bar_cells(200), 20);
    assert_eq!(progress_bar(2, 5), "[\u{2588}\u{2588}   ]");
    assert_eq!(progress_bar(9, 3), "[\u{2588}\u{2588}\u{2588}]");
    assert_eq!(progress_bar(0, 2), "[  ]");
}

#[test]
fn menu_is_a_ring_of_five() {
    let mut h = home();
    h.handle_key(key(KeyCode::Tab));
    h.handle_key(key(KeyCode::Down));
    h.handle_key(key(KeyCode::Down));
    let start = h.menu_selected();
    for _ in 0..5 {
        assert_eq!(h.handle_key(key(KeyCode::Down)), HomeAction::Nothing);
    }
    assert_eq!(h.menu_selected(), start);
    h.handle_key(key(KeyCode::Down));
    h.handle_key(key(KeyCode::Up));
    assert_eq!(h.menu_selected(), start);
    // Typing does nothing while the menu has focus.
    assert_eq!(h.handle_key(key(KeyCode::Char('x'))), HomeAction::Nothing);
    assert_eq!(h.search(), "");
}

#[test]
fn menu_wraps_both_ways() {
    let mut h = home();
    h.handle_key(key(KeyCode::Tab));
    for _ in 0..4 {
        h.handle_key(key(KeyCode::Down));
    }
    assert_eq!(h.menu_selected(), 4);
    h.handle_key(key(KeyCode::Down));
    assert_eq!(h.menu_selected(), 0);
    h.handle_key(key(KeyCode::Up));
    assert_eq!(h.menu_selected(), 4);
}
