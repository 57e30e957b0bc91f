use shell_core::lookups::{
    choose_package_manager, first_answer, refused_answer, regular_file_names, suggestion_url,
    text_entries, toggle_window, WindowAction,
};

#[test]
fn package_manager_follows_lock_files() {
    assert_eq!(choose_package_manager(true, true, true), "bun");
    assert_eq!(choose_package_manager(false, true, true), "pnpm");
    assert_eq!(choose_package_manager(false, false, true), "yarn");
    assert_eq!(choose_package_manager(false, false, false), "npm");
}

#[test]
fn only_text_scripts_are_kept() {
    let entries = vec![
        ("dev".to_string(), Some("vite".to_string())),
        ("weird".to_string(), None),
        ("build".to_string(), Some("vite build".to_string())),
    ];
    assert_eq!(
        text_entries(entries),
        vec![("dev".to_string(), "vite".to_string()), ("build".to_string(), "vite build".to_string())]
    );
    assert!(text_entries(Vec::new()).is_empty());
}

#[test]
fn only_regular_files_with_text_names_are_offered() {
    let entries = vec![
        (true, Some("ls".to_string())),
        (false, Some("subdir".to_string())),
        (true, None),
        (true, Some("cat".to_string())),
    ];
    assert_eq!(regular_file_names(entries), vec!["ls".to_string(), "cat".to_string()]);
}

#[test]
fn suggestion_url_needs_a_key() {
    assert_eq!(
        suggestion_url(&String::new()),
        Err("API key is not set. Please add it in settings.".to_string())
    );
    assert_eq!(
        suggestion_url(&"k123".to_string()),
        Ok("https://generativelanguage.googleapis.com/v1beta/models/gemini-1.5-flash:generateContent?key=k123".to_string())
    );
}

#[test]
fn first_answer_takes_first_part_of_first_candidate() {
    let c = vec![vec!["ls -la".to_string(), "ignored".to_string()], vec!["other".to_string()]];
    assert_eq!(first_answer(&c), Ok("ls -la".to_string()));
    let bad = Err("Unexpected AI response format.".to_string());
    assert_eq!(first_answer(&Vec::new()), bad);
    assert_eq!(first_answer(&vec![Vec::new(), vec!["x".to_string()]]), bad);
    assert_eq!(refused_answer(&"quota".to_string()), "API Error: quota");
}

#[test]
fn hotkey_toggles_window() {
    assert_eq!(toggle_window(true, false), vec![WindowAction::Minimize]);
    assert_eq!(toggle_window(false, false), vec![WindowAction::Show, WindowAction::Focus]);
    assert_eq!(
        toggle_window(true, true),
        vec![WindowAction::Unminimize, WindowAction::Show, WindowAction::Focus]
    );
}
