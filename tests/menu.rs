use nebula_keybind_menu::filter::{filter_keybinds, matches_folded, matches_query};
use nebula_keybind_menu::keybind::{
    default_keybinds, resolve_keybinds, user_config_path, Keybind, SYSTEM_CONFIG_PATH,
};
use nebula_keybind_menu::layout::{
    layout_content, make_desc_line, ContentLine, LOADING_NOTICE, NO_MATCHES_NOTICE,
};
use nebula_keybind_menu::state::{
    clamp_scroll, classify, search_text, Action, App, Key, KeyEvent, PLACEHOLDER,
};

fn kb(keys: &str, name: &str, desc: &str) -> Keybind {
    Keybind::new(keys.to_string(), name.to_string(), desc.to_string())
}

fn numbered_store() -> Vec<Keybind> {
    (0..10).map(|i| kb(&format!("K{}", i), &format!("A{}", i), "")).collect()
}

fn names(v: &[Keybind]) -> Vec<String> {
    v.iter().map(|k| k.name.clone()).collect()
}

fn press(key: Key) -> KeyEvent {
    KeyEvent { key, ctrl: false, press: true }
}

fn line_text(l: &ContentLine) -> String {
    match l {
        ContentLine::Entry { key_text, gap, name } => format!("{}{}{}", key_text, gap, name),
        ContentLine::Description(s) => s.clone(),
        ContentLine::Spacer => " ".to_string(),
        ContentLine::Notice(s) => s.clone(),
    }
}

#[test]
fn query_five_selects_one_of_ten() {
    let store = numbered_store();
    let r = filter_keybinds(&store, "5");
    assert_eq!(names(&r), vec!["A5".to_string()]);
}

#[test]
fn empty_query_selects_all_in_order() {
    let store = numbered_store();
    let r = filter_keybinds(&store, "");
    assert_eq!(names(&r), names(&store));
}

#[test]
fn unmatched_query_gives_no_matches_line() {
    let store = numbered_store();
    let r = filter_keybinds(&store, "Z");
    assert!(r.is_empty());
    let lines = layout_content(&r, 40);
    assert_eq!(lines.len(), 1);
    assert!(matches!(&lines[0], ContentLine::Notice(s) if s == NO_MATCHES_NOTICE));
}

#[test]
fn filter_keeps_store_order() {
    let store = vec![
        kb("a", "Open B", ""),
        kb("b", "Close", "nothing"),
        kb("c", "Other", "open A"),
        kb("d", "open C", ""),
    ];
    let r = filter_keybinds(&store, "open");
    assert_eq!(names(&r), vec!["Open B", "Other", "open C"]);
}

#[test]
fn match_ignores_letter_case() {
    let store = vec![kb("SUPER + SPACE", "Launcher", "Open app launcher")];
    assert_eq!(filter_keybinds(&store, "LAUNCHER").len(), 1);
    assert_eq!(filter_keybinds(&store, "launcher").len(), 1);
    assert_eq!(filter_keybinds(&store, "LaUnChEr").len(), 1);
    assert_eq!(filter_keybinds(&store, "APP").len(), 1);
    assert_eq!(filter_keybinds(&store, "space").len(), 0);
}

#[test]
fn match_reads_name_and_description() {
    let k = kb("X", "Name", "Description");
    assert!(matches_query(&k, "NAM", "nam"));
    assert!(matches_query(&k, "script", "script"));
    assert!(!matches_query(&k, "x", "x"));
    assert!(matches_query(&k, "", ""));
    assert!(matches_folded("ab", "xaby", "q"));
    assert!(matches_folded("ab", "q", "ab"));
    assert!(!matches_folded("ab", "a b", "ba"));
}

#[test]
fn desc_line_fills_width_evenly() {
    assert_eq!(make_desc_line("ab", 10), "--- ab ---");
    assert_eq!(make_desc_line("ab", 11), "--- ab ----");
    assert_eq!(make_desc_line("  ab  ", 6), "- ab -");
    for w in 6..40u16 {
        assert_eq!(make_desc_line("ab", w).len(), w as usize);
    }
}

#[test]
fn desc_line_too_narrow_is_raw() {
    assert_eq!(make_desc_line("  abc ", 6), "abc");
    assert_eq!(make_desc_line("abc", 0), "abc");
    assert_eq!(make_desc_line("abc", 7), "- abc -");
}

#[test]
fn desc_line_counts_bytes() {
    // "é" takes two bytes: 2 + 4 = 6 fits, 5 does not.
    assert_eq!(make_desc_line("é", 6), "- é -");
    assert_eq!(make_desc_line("é", 5), "é");
}

#[test]
fn entry_lines_align_columns() {
    let items = vec![kb("K", "Name", "desc"), kb("LONG KEYS", "N", "")];
    let lines = layout_content(&items, 12);
    let texts: Vec<String> = lines.iter().map(line_text).collect();
    assert_eq!(
        texts,
        vec!["K       Name", "--- desc ---", " ", "LONG KEYS  N", " "]
    );
    let tight = layout_content(&vec![kb("K", "N", "")], 2);
    assert_eq!(line_text(&tight[0]), "K N");
    let narrow = layout_content(&items, 3);
    assert_eq!(line_text(&narrow[0]), "K Name");
    assert_eq!(line_text(&narrow[1]), "desc");
}

#[test]
fn clamp_stays_in_range() {
    assert_eq!(clamp_scroll(5, 20, 10), 5);
    assert_eq!(clamp_scroll(15, 20, 10), 10);
    assert_eq!(clamp_scroll(3, 5, 10), 0);
    assert_eq!(clamp_scroll(u16::MAX, 20, 0), 20);
}

#[test]
fn scroll_keys_move_offset() {
    let mut app = App::new();
    app.content_height = 7;
    assert!(!app.handle_key(press(Key::Up)));
    assert_eq!(app.scroll_offset, 0);
    app.handle_key(press(Key::Down));
    app.handle_key(press(Key::Down));
    assert_eq!(app.scroll_offset, 2);
    app.handle_key(press(Key::PageDown));
    assert_eq!(app.scroll_offset, 9);
    app.handle_key(press(Key::PageUp));
    app.handle_key(press(Key::PageUp));
    assert_eq!(app.scroll_offset, 0);
    app.content_height = 0;
    app.handle_key(press(Key::PageDown));
    assert_eq!(app.scroll_offset, 1);
    app.scroll_offset = u16::MAX;
    app.handle_key(press(Key::Down));
    assert_eq!(app.scroll_offset, u16::MAX);
}

#[test]
fn edit_resets_scroll() {
    let mut app = App::new();
    app.scroll_offset = 12;
    assert!(app.handle_key(press(Key::Char('x'))));
    assert_eq!(app.scroll_offset, 0);
    app.scroll_offset = 4;
    app.set_query("abc".to_string());
    assert_eq!(app.scroll_offset, 0);
    assert_eq!(app.query, "abc");
    app.scroll_offset = 4;
    assert!(app.handle_key(press(Key::Other)));
    assert_eq!(app.scroll_offset, 0);
}

#[test]
fn escape_and_ctrl_c_quit() {
    let mut app = App::new();
    assert!(!app.handle_key(press(Key::Esc)));
    assert!(app.should_quit);
    let mut app = App::new();
    app.handle_key(KeyEvent { key: Key::Char('c'), ctrl: true, press: true });
    assert!(app.should_quit);
    let mut app = App::new();
    assert!(app.handle_key(press(Key::Char('c'))));
    assert!(!app.should_quit);
    assert_eq!(app.scroll_offset, 0);
}

#[test]
fn releases_are_ignored() {
    let mut app = App::new();
    app.scroll_offset = 3;
    let e = KeyEvent { key: Key::Esc, ctrl: false, press: false };
    assert!(classify(e) == Action::Ignore);
    assert!(!app.handle_key(e));
    assert!(!app.should_quit);
    assert_eq!(app.scroll_offset, 3);
}

#[test]
fn content_before_and_after_load() {
    let mut app = App::new();
    let v = app.render_content(40, 10);
    assert_eq!(v.lines.len(), 1);
    assert!(matches!(&v.lines[0], ContentLine::Notice(s) if s == LOADING_NOTICE));
    assert_eq!(app.content_height, 0);
    app.load(numbered_store());
    app.scroll_offset = 100;
    let v = app.render_content(40, 10);
    assert_eq!(v.lines.len(), 20);
    assert_eq!(v.scroll, 10);
    assert_eq!(app.scroll_offset, 10);
    assert_eq!(app.content_height, 10);
    app.set_query("5".to_string());
    let v = app.render_content(40, 10);
    assert_eq!(v.lines.len(), 2);
    assert_eq!(v.scroll, 0);
    app.set_query("Z".to_string());
    let v = app.render_content(40, 10);
    assert!(matches!(&v.lines[0], ContentLine::Notice(s) if s == NO_MATCHES_NOTICE));
}

#[test]
fn search_box_text() {
    assert_eq!(search_text(""), format!(" {} ", PLACEHOLDER));
    assert_eq!(search_text("abc"), " abc ");
}

#[test]
fn defaults_are_four_samples() {
    let d = default_keybinds();
    let pairs: Vec<(String, String)> =
        d.iter().map(|k| (k.keys.clone(), k.name.clone())).collect();
    assert_eq!(
        pairs,
        vec![
            ("SUPER + SPACE".to_string(), "Launcher".to_string()),
            ("SUPER + B".to_string(), "Web Browser".to_string()),
            ("SUPER + ENTER".to_string(), "Terminal".to_string()),
            ("SUPER + Q".to_string(), "Close Window".to_string()),
        ]
    );
}

#[test]
fn user_tier_wins_over_system() {
    let r = resolve_keybinds(Some(vec![kb("a", "U", "")]), Some(vec![kb("b", "S", "")]));
    assert_eq!(names(&r), vec!["U"]);
}

#[test]
fn system_tier_after_empty_user() {
    let r = resolve_keybinds(Some(vec![]), Some(vec![kb("b", "S", "")]));
    assert_eq!(names(&r), vec!["S"]);
    let r = resolve_keybinds(None, Some(vec![kb("b", "S", "")]));
    assert_eq!(names(&r), vec!["S"]);
}

#[test]
fn defaults_when_no_tier_accepted() {
    let want = names(&default_keybinds());
    assert_eq!(names(&resolve_keybinds(None, None)), want);
    assert_eq!(names(&resolve_keybinds(Some(vec![]), Some(vec![]))), want);
}

#[test]
fn config_path_components() {
    assert_eq!(
        user_config_path(Some("/x".to_string()), Some("/h".to_string())),
        Some(vec!["/x".to_string(), "nebula-keybind-menu".to_string(), "config.toml".to_string()])
    );
    assert_eq!(
        user_config_path(None, Some("/h".to_string())),
        Some(vec![
            "/h".to_string(),
            ".config".to_string(),
            "nebula-keybind-menu".to_string(),
            "config.toml".to_string()
        ])
    );
    assert_eq!(user_config_path(None, None), None);
    assert!(SYSTEM_CONFIG_PATH.ends_with("config.toml"));
}

#[test]
fn desc_line_trims_unicode_whitespace() {
    assert_eq!(make_desc_line("\u{3000}\tab\u{a0}\n", 10), "--- ab ---");
    assert_eq!(make_desc_line(" \u{2003} ", 7), "--  ---");
    assert_eq!(make_desc_line("a b", 3), "a b");
}

#[test]
fn match_finds_runs_of_characters() {
    assert!(matches_folded("é", "café", ""));
    assert!(matches_folded("fé", "café", ""));
    assert!(!matches_folded("éc", "café", ""));
    assert!(matches_folded("", "", ""));
    assert!(!matches_folded("abc", "ab", "bc"));
    assert!(matches_folded("abc", "xxabxabcx", ""));
}
