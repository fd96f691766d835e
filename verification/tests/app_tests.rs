use vorto::app::{App, InputMode, Reload};
use vorto::keys::{Effect, Key, KeyCode};
use vorto::model::{SearchResult, Verse};
use vorto::pane::Pane;

fn s(x: &str) -> String {
    x.to_string()
}

fn books() -> Vec<String> {
    vec![s("Genesis"), s("Exodus"), s("Job"), s("John"), s("Joel"), s("1 John")]
}

fn reader() -> App {
    App::new(vec![s("BSB"), s("KJV"), s("WEB")], books())
}

fn key(app: &mut App, code: KeyCode) -> Effect {
    app.handle_key(Key { code, ctrl: false })
}

fn press(app: &mut App, c: char) -> Effect {
    key(app, KeyCode::Char(c))
}

fn ctrl(app: &mut App, c: char) -> Effect {
    app.handle_key(Key { code: KeyCode::Char(c), ctrl: true })
}

fn typed(app: &mut App, text: &str) {
    for c in text.chars() {
        press(app, c);
    }
}

fn selected(app: &App) -> Option<usize> {
    app.view_stack.last().expect("a list is open").state().selected
}

fn verse(chapter: u32, verse: u32, text: &str) -> Verse {
    Verse { chapter, verse, text: s(text) }
}

fn chapter_three() -> Vec<Verse> {
    (1..=24).map(|v| verse(3, v, &format!("Verse {v} of chapter three"))).collect()
}

fn fifty() -> Vec<u32> {
    (1..=50).collect()
}

fn filtered_of(app: &App) -> Vec<usize> {
    match app.view_stack.last().expect("a list is open") {
        Pane::Books { filtered, .. } => filtered.clone(),
        Pane::Chapters { filtered, .. } => filtered.clone(),
        Pane::Verses { filtered, .. } => filtered.clone(),
        Pane::SearchResults { items, .. } => (0..items.len()).collect(),
    }
}

/// Opens Genesis 3 by keys: Enter on the book, chapter 3 by number.
fn open_genesis_three(app: &mut App) {
    match key(app, KeyCode::Enter) {
        Effect::OpenChapters { book } => {
            assert_eq!(book, "Genesis");
            app.push_chapters_view(book, fifty());
        }
        _ => panic!("Enter on a book opens its chapters"),
    }
    typed(app, "3");
    match key(app, KeyCode::Enter) {
        Effect::OpenVerses { book, chapter, verse } => {
            assert_eq!((book.as_str(), chapter, verse), ("Genesis", 3, None));
            app.push_verses_view(book, chapter, chapter_three());
        }
        _ => panic!("a typed chapter number opens the chapter"),
    }
}

#[test]
fn startup_shows_books_of_bsb() {
    let app = reader();
    assert_eq!(app.current_version(), "BSB");
    assert_eq!(app.view_stack.len(), 1);
    assert_eq!(selected(&app), Some(0));
    assert_eq!(filtered_of(&app), vec![0, 1, 2, 3, 4, 5]);
    assert_eq!(app.hidden, vec![false, false, false]);
    assert!(app.jump_list.is_empty());
    assert_eq!(app.input_mode, InputMode::Normal);
}

#[test]
fn default_translation_is_bsb_or_the_first() {
    assert_eq!(App::default_version_index_of(&vec![s("KJV"), s("WEB"), s("BSB")]), 2);
    assert_eq!(App::default_version_index_of(&vec![s("KJV"), s("WEB")]), 0);
    let app = App::new(vec![s("KJV"), s("BSB")], books());
    assert_eq!(app.current_version(), "BSB");
}

#[test]
fn drill_down_and_back() {
    let mut app = reader();
    open_genesis_three(&mut app);
    assert_eq!(app.view_stack.len(), 3);
    assert_eq!(app.header_path(), "BSB / Genesis / 3");
    press(&mut app, '-');
    assert_eq!(app.view_stack.len(), 2);
    assert_eq!(app.header_path(), "BSB / Genesis");
    assert_eq!(selected(&app), Some(2));
    press(&mut app, '-');
    assert_eq!(app.header_path(), "BSB / Books");
    press(&mut app, '-');
    assert_eq!(app.view_stack.len(), 1);
}

#[test]
fn jump_history_back_and_forward() {
    let mut app = reader();
    key(&mut app, KeyCode::Enter);
    app.push_chapters_view(s("Genesis"), fifty());
    assert_eq!((app.jump_list.len(), app.jump_idx), (1, 1));
    ctrl(&mut app, 'o');
    assert_eq!(app.view_stack.len(), 1);
    assert_eq!(app.jump_idx, 0);
    key(&mut app, KeyCode::Tab);
    assert_eq!(app.view_stack.len(), 2);
    assert_eq!(app.header_path(), "BSB / Genesis");
    // Nothing further back than the start, nothing further forward than the end.
    ctrl(&mut app, 'i');
    assert_eq!(app.view_stack.len(), 2);
    ctrl(&mut app, 'o');
    ctrl(&mut app, 'o');
    assert_eq!(app.view_stack.len(), 1);
    assert_eq!(app.jump_idx, 0);
}

#[test]
fn filter_then_enter_opens_the_selected_book() {
    let mut app = reader();
    press(&mut app, '/');
    assert_eq!(app.input_mode, InputMode::Filter);
    typed(&mut app, "JO");
    assert_eq!(app.status_text(), "Filter: JO\u{2588}");
    assert_eq!(filtered_of(&app), vec![2, 3, 4, 5]);
    assert_eq!(selected(&app), Some(0));
    ctrl(&mut app, 'n');
    assert_eq!(selected(&app), Some(1));
    match key(&mut app, KeyCode::Enter) {
        Effect::OpenChapters { book } => assert_eq!(book, "John"),
        _ => panic!("Enter opens the selected book"),
    }
    assert_eq!(app.input_mode, InputMode::Normal);
    assert_eq!(filtered_of(&app), vec![0, 1, 2, 3, 4, 5]);
    assert_eq!(selected(&app), Some(3));
}

#[test]
fn filter_escape_and_backspace() {
    let mut app = reader();
    press(&mut app, '/');
    typed(&mut app, "jox");
    assert!(filtered_of(&app).is_empty());
    assert_eq!(selected(&app), None);
    key(&mut app, KeyCode::Backspace);
    assert_eq!(app.input_buffer, "jo");
    assert_eq!(filtered_of(&app), vec![2, 3, 4, 5]);
    key(&mut app, KeyCode::Tab);
    key(&mut app, KeyCode::Tab);
    key(&mut app, KeyCode::BackTab);
    assert_eq!(selected(&app), Some(1));
    key(&mut app, KeyCode::Esc);
    assert_eq!(app.input_mode, InputMode::Normal);
    assert!(app.input_buffer.is_empty());
    assert_eq!(filtered_of(&app), vec![0, 1, 2, 3, 4, 5]);
    assert_eq!(selected(&app), Some(3));
}

#[test]
fn chapter_filter_matches_digits() {
    let mut app = reader();
    key(&mut app, KeyCode::Enter);
    app.push_chapters_view(s("Genesis"), fifty());
    press(&mut app, '/');
    typed(&mut app, "5");
    assert_eq!(filtered_of(&app), vec![4, 14, 24, 34, 44, 49]);
}

#[test]
fn verse_filter_is_case_insensitive() {
    let mut app = reader();
    let verses = vec![verse(1, 1, "In the Beginning"), verse(1, 2, "And the earth"), verse(1, 3, "beginnings")];
    app.push_verses_view(s("Genesis"), 1, verses);
    press(&mut app, '/');
    typed(&mut app, "BEGIN");
    assert_eq!(filtered_of(&app), vec![0, 2]);
}

#[test]
fn cursor_moves_stay_in_the_list() {
    let mut app = reader();
    key(&mut app, KeyCode::Enter);
    app.push_chapters_view(s("Genesis"), fifty());
    press(&mut app, 'k');
    assert_eq!(selected(&app), Some(0));
    press(&mut app, 'j');
    key(&mut app, KeyCode::Down);
    assert_eq!(selected(&app), Some(2));
    key(&mut app, KeyCode::Up);
    assert_eq!(selected(&app), Some(1));
    ctrl(&mut app, 'd');
    assert_eq!(selected(&app), Some(21));
    ctrl(&mut app, 'd');
    ctrl(&mut app, 'd');
    assert_eq!(selected(&app), Some(49));
    press(&mut app, 'j');
    assert_eq!(selected(&app), Some(49));
    ctrl(&mut app, 'u');
    assert_eq!(selected(&app), Some(29));
    press(&mut app, 'g');
    press(&mut app, 'g');
    assert_eq!(selected(&app), Some(0));
    press(&mut app, 'G');
    assert_eq!(selected(&app), Some(49));
}

#[test]
fn a_single_g_is_forgotten() {
    let mut app = reader();
    press(&mut app, 'j');
    press(&mut app, 'j');
    press(&mut app, 'g');
    assert!(app.last_key_was_g);
    press(&mut app, 'k');
    assert!(!app.last_key_was_g);
    assert_eq!(selected(&app), Some(1));
    press(&mut app, 'g');
    assert_eq!(selected(&app), Some(1));
    press(&mut app, 'g');
    assert_eq!(selected(&app), Some(0));
}

#[test]
fn number_jump_in_chapters_and_verses() {
    let mut app = reader();
    key(&mut app, KeyCode::Enter);
    app.push_chapters_view(s("Genesis"), fifty());
    typed(&mut app, "12");
    assert_eq!(app.number_buffer, "12");
    match key(&mut app, KeyCode::Enter) {
        Effect::OpenVerses { book, chapter, verse } => {
            assert_eq!((book.as_str(), chapter, verse), ("Genesis", 12, None))
        }
        _ => panic!("chapter 12 exists"),
    }
    assert_eq!(selected(&app), Some(11));
    assert!(app.number_buffer.is_empty());
    typed(&mut app, "99");
    assert!(matches!(key(&mut app, KeyCode::Enter), Effect::Nothing));
    assert_eq!(app.message.as_deref(), Some("Chapter 99 not found"));
    assert_eq!(app.status_text(), "Chapter 99 not found");
    // The message lasts until the next key.
    press(&mut app, 'j');
    assert_eq!(app.message, None);

    app.push_verses_view(s("Genesis"), 3, chapter_three());
    typed(&mut app, "15");
    assert!(matches!(key(&mut app, KeyCode::Enter), Effect::Nothing));
    assert_eq!(selected(&app), Some(14));
    typed(&mut app, "99");
    key(&mut app, KeyCode::Enter);
    assert_eq!(app.message.as_deref(), Some("Verse 99 not found"));
}

#[test]
fn process_number_jump_directly() {
    let mut app = reader();
    app.push_chapters_view(s("Exodus"), vec![1, 2, 3]);
    assert_eq!(app.process_number_jump(), None);
    app.number_buffer = s("2");
    assert_eq!(app.process_number_jump(), Some((s("Exodus"), 2)));
    assert_eq!(selected(&app), Some(1));
    assert_eq!(app.jump_list.len(), 1);
}

#[test]
fn escape_clears_number_and_quit_quits() {
    let mut app = reader();
    typed(&mut app, "42");
    key(&mut app, KeyCode::Esc);
    assert!(app.number_buffer.is_empty());
    assert!(!app.should_quit);
    press(&mut app, 'q');
    assert!(app.should_quit);
}

#[test]
fn global_search_opens_hits() {
    let mut app = reader();
    press(&mut app, 'S');
    assert_eq!(app.input_mode, InputMode::GlobalSearch);
    typed(&mut app, "lovx");
    key(&mut app, KeyCode::Backspace);
    press(&mut app, 'e');
    assert_eq!(app.status_text(), "Global Search: love\u{2588}");
    assert!(matches!(key(&mut app, KeyCode::Enter), Effect::Search));
    let hits = vec![
        SearchResult { book: s("John"), chapter: 3, verse: 16, text: s("For God so loved the world") },
        SearchResult { book: s("1 John"), chapter: 4, verse: 8, text: s("God is love") },
    ];
    app.perform_global_search(hits);
    assert_eq!(app.input_mode, InputMode::Normal);
    assert!(app.input_buffer.is_empty());
    assert_eq!(app.header_path(), "BSB / Search: \"love\"");
    press(&mut app, 'j');
    match key(&mut app, KeyCode::Enter) {
        Effect::OpenVerses { book, chapter, verse } => {
            assert_eq!((book.as_str(), chapter, verse), ("1 John", 4, Some(8)))
        }
        _ => panic!("Enter on a hit opens its chapter"),
    }
}

#[test]
fn empty_search_only_leaves_search_mode() {
    let mut app = reader();
    press(&mut app, '?');
    assert!(matches!(key(&mut app, KeyCode::Enter), Effect::Nothing));
    assert_eq!(app.input_mode, InputMode::Normal);
    assert_eq!(app.view_stack.len(), 1);
    press(&mut app, 'S');
    typed(&mut app, "x");
    key(&mut app, KeyCode::Esc);
    assert_eq!(app.input_mode, InputMode::Normal);
    assert!(app.input_buffer.is_empty());
}

#[test]
fn quick_jump_to_a_verse() {
    let mut app = reader();
    press(&mut app, ' ');
    assert_eq!(app.input_mode, InputMode::JumpMenu);
    assert_eq!(app.status_text(), "Jump Menu Active");
    typed(&mut app, "gen 3 15");
    assert_eq!(vorto::jump::parse_jump_menu(&app), Some((s("Genesis"), Some(3), Some(15))));
    match key(&mut app, KeyCode::Enter) {
        Effect::JumpTo { book, chapter, verse } => {
            assert_eq!((book.as_str(), chapter, verse), ("Genesis", 3, Some(15)));
            app.jump_to(book, fifty(), chapter, chapter_three());
            app.select_verse(15);
        }
        _ => panic!("gen names Genesis"),
    }
    assert_eq!(app.input_mode, InputMode::Normal);
    assert!(app.jump_menu_buffer.is_empty());
    assert_eq!(app.view_stack.len(), 3);
    assert_eq!(app.header_path(), "BSB / Genesis / 3");
    assert_eq!(selected(&app), Some(14));
    assert_eq!(app.jump_list.len(), 1);
}

#[test]
fn quick_jump_book_matching() {
    let mut app = reader();
    press(&mut app, ' ');
    typed(&mut app, "jo");
    assert_eq!(vorto::jump::parse_jump_menu(&app), Some((s("Job"), None, None)));
    typed(&mut app, "hn");
    assert_eq!(vorto::jump::parse_jump_menu(&app), Some((s("John"), None, None)));
    key(&mut app, KeyCode::Esc);
    press(&mut app, ' ');
    typed(&mut app, "ohn 2");
    assert_eq!(vorto::jump::parse_jump_menu(&app), Some((s("John"), Some(2), None)));
    key(&mut app, KeyCode::Esc);
    press(&mut app, ' ');
    typed(&mut app, "1 jo");
    assert_eq!(vorto::jump::parse_jump_menu(&app), Some((s("1 John"), None, None)));
    key(&mut app, KeyCode::Tab);
    assert_eq!(app.jump_menu_buffer, "1 John ");
    typed(&mut app, "x");
    assert_eq!(vorto::jump::parse_jump_menu(&app), Some((s("1 John"), None, None)));
}

#[test]
fn quick_jump_without_chapter_and_without_match() {
    let mut app = reader();
    press(&mut app, ' ');
    typed(&mut app, "xyz");
    assert_eq!(vorto::jump::parse_jump_menu(&app), None);
    assert!(matches!(key(&mut app, KeyCode::Enter), Effect::Nothing));
    assert_eq!(app.input_mode, InputMode::JumpMenu);
    key(&mut app, KeyCode::Tab);
    assert_eq!(app.jump_menu_buffer, "xyz");
    key(&mut app, KeyCode::Esc);
    press(&mut app, ' ');
    typed(&mut app, "EXO");
    match key(&mut app, KeyCode::Enter) {
        Effect::JumpTo { book, chapter, verse } => {
            assert_eq!((book.as_str(), chapter, verse), ("Exodus", 1, None))
        }
        _ => panic!("EXO names Exodus"),
    }
}

#[test]
fn visual_selection_and_yank() {
    let mut app = reader();
    open_genesis_three(&mut app);
    press(&mut app, 'j');
    press(&mut app, 'v');
    assert_eq!(app.message.as_deref(), Some("Visual line selection started"));
    press(&mut app, 'j');
    press(&mut app, 'j');
    match press(&mut app, 'y') {
        Effect::Yank { text, count } => {
            assert_eq!(count, 3);
            assert_eq!(
                text,
                "Genesis 3\n[2] Verse 2 of chapter three\n[3] Verse 3 of chapter three\n[4] Verse 4 of chapter three\n"
            );
            app.report_yank(count, true);
        }
        _ => panic!("y in a verse list yanks"),
    }
    assert_eq!(app.message.as_deref(), Some("Yanked 3 verse(s)"));
    match app.view_stack.last() {
        Some(Pane::Verses { visual_start, .. }) => assert_eq!(*visual_start, None),
        _ => panic!("the verse list stays open"),
    }
}

#[test]
fn yank_upwards_and_single_row() {
    let mut app = reader();
    app.push_verses_view(s("Ruth"), 1, vec![verse(1, 1, "a"), verse(1, 2, "b"), verse(1, 3, "c")]);
    press(&mut app, 'G');
    press(&mut app, 'v');
    press(&mut app, 'k');
    match press(&mut app, 'y') {
        Effect::Yank { text, count } => {
            assert_eq!(count, 2);
            assert_eq!(text, "Ruth 1\n[2] b\n[3] c\n");
        }
        _ => panic!("yank"),
    }
    assert_eq!(app.yank_selection(), Some((s("Ruth 1\n[2] b\n"), 1)));
    app.report_yank(1, false);
    assert_eq!(app.message.as_deref(), Some("Failed to copy (clipboard/wl-copy/xclip failed)"));
}

#[test]
fn visual_mode_cancelled_by_v_and_escape() {
    let mut app = reader();
    app.push_verses_view(s("Ruth"), 1, vec![verse(1, 1, "a"), verse(1, 2, "b")]);
    press(&mut app, 'v');
    press(&mut app, 'v');
    assert_eq!(app.message.as_deref(), Some("Visual mode cancelled"));
    press(&mut app, 'v');
    key(&mut app, KeyCode::Esc);
    match app.view_stack.last() {
        Some(Pane::Verses { visual_start, .. }) => assert_eq!(*visual_start, None),
        _ => panic!("verse list"),
    }
    // Outside a verse list, y copies nothing.
    press(&mut app, '-');
    assert!(matches!(press(&mut app, 'y'), Effect::Nothing));
}

#[test]
fn brackets_ask_for_sibling_jumps() {
    let mut app = reader();
    assert!(matches!(press(&mut app, '['), Effect::Sibling { offset: -1, jump_book: false }));
    assert!(matches!(press(&mut app, ']'), Effect::Sibling { offset: 1, jump_book: false }));
    assert!(matches!(press(&mut app, '{'), Effect::Sibling { offset: -1, jump_book: true }));
    assert!(matches!(press(&mut app, '}'), Effect::Sibling { offset: 1, jump_book: true }));
}

#[test]
fn translation_switcher_cycles_and_reloads() {
    let mut app = reader();
    press(&mut app, 't');
    assert!(app.show_version_popup);
    assert_eq!(app.versions_state.selected, Some(0));
    assert!(matches!(press(&mut app, 'j'), Effect::ReloadVersion));
    assert_eq!(app.current_version(), "KJV");
    assert_eq!(app.versions_state.selected, Some(1));
    press(&mut app, 'k');
    press(&mut app, 'k');
    assert_eq!(app.current_version(), "WEB");
    assert_eq!(app.versions_state.selected, Some(2));
    key(&mut app, KeyCode::Esc);
    assert!(!app.show_version_popup);
    press(&mut app, 'c');
    assert!(app.show_version_popup);
    key(&mut app, KeyCode::Enter);
    assert!(!app.show_version_popup);
}

#[test]
fn change_version_wraps() {
    let mut app = reader();
    app.change_version(-1);
    assert_eq!(app.current_version(), "WEB");
    app.change_version(4);
    assert_eq!(app.current_version(), "BSB");
    app.change_version(1);
    assert_eq!(app.current_version(), "KJV");
    for start in 0..3 {
        app.current_version_idx = start;
        app.change_version(1);
        app.change_version(-1);
        assert_eq!(app.current_version_idx, start);
    }
}

#[test]
fn rebuild_after_translation_change() {
    let mut app = reader();
    open_genesis_three(&mut app);
    press(&mut app, 'j');
    app.change_version(1);
    let reloads = app.rebuild_for_version(vec![s("Genesis"), s("Exodus"), s("Tobit")]);
    assert_eq!(app.view_stack.len(), 1);
    assert_eq!(selected(&app), Some(0));
    assert_eq!(reloads.len(), 2);
    match &reloads[0] {
        Reload::Chapters { book, selected } => assert_eq!((book.as_str(), *selected), ("Genesis", Some(2))),
        _ => panic!("chapters first"),
    }
    match &reloads[1] {
        Reload::Verses { book, chapter, selected } => {
            assert_eq!((book.as_str(), *chapter, *selected), ("Genesis", 3, Some(1)))
        }
        _ => panic!("then verses"),
    }
    app.restore_chapters(s("Genesis"), fifty(), Some(2));
    app.restore_verses(s("Genesis"), 3, chapter_three(), Some(1));
    assert_eq!(app.header_path(), "KJV / Genesis / 3");
    assert_eq!(selected(&app), Some(1));
}

#[test]
fn rebuild_reopens_searches() {
    let mut app = reader();
    press(&mut app, 'S');
    typed(&mut app, "light");
    app.perform_global_search(vec![SearchResult { book: s("Genesis"), chapter: 1, verse: 3, text: s("light") }]);
    let reloads = app.rebuild_for_version(books());
    assert_eq!(reloads.len(), 1);
    match &reloads[0] {
        Reload::Search { query, selected } => assert_eq!((query.as_str(), *selected), ("light", Some(0))),
        _ => panic!("search"),
    }
    app.restore_search(s("light"), vec![], None);
    assert_eq!(app.header_path(), "BSB / Search: \"light\"");
}

#[test]
fn translation_manager_reorders_and_hides() {
    let mut app = reader();
    press(&mut app, 'T');
    assert!(app.show_manager);
    assert_eq!(app.manager_state.selected, Some(0));
    press(&mut app, 'J');
    assert_eq!(app.versions, vec![s("KJV"), s("BSB"), s("WEB")]);
    assert_eq!(app.manager_state.selected, Some(1));
    assert_eq!(app.current_version(), "BSB");
    press(&mut app, 'J');
    press(&mut app, 'J');
    assert_eq!(app.versions, vec![s("KJV"), s("WEB"), s("BSB")]);
    press(&mut app, 'K');
    press(&mut app, 'K');
    assert_eq!(app.versions, vec![s("BSB"), s("KJV"), s("WEB")]);
    assert_eq!(app.manager_state.selected, Some(0));
    press(&mut app, 'K');
    assert_eq!(app.versions, vec![s("BSB"), s("KJV"), s("WEB")]);
    press(&mut app, 'j');
    press(&mut app, ' ');
    assert_eq!(app.hidden, vec![false, true, false]);
    assert_eq!(app.visible_versions(), vec![0, 2]);
    key(&mut app, KeyCode::Enter);
    assert!(!app.show_manager);
    // The switcher skips the hidden translation.
    press(&mut app, 't');
    press(&mut app, 'j');
    assert_eq!(app.current_version(), "WEB");
    assert_eq!(app.versions_state.selected, Some(1));
    press(&mut app, 'j');
    assert_eq!(app.current_version(), "BSB");
}

#[test]
fn manager_toggle_twice_and_cursor_bounds() {
    let mut app = reader();
    press(&mut app, 'T');
    press(&mut app, ' ');
    press(&mut app, ' ');
    assert_eq!(app.hidden, vec![false, false, false]);
    press(&mut app, 'k');
    assert_eq!(app.manager_state.selected, Some(0));
    key(&mut app, KeyCode::Down);
    key(&mut app, KeyCode::Down);
    key(&mut app, KeyCode::Down);
    assert_eq!(app.manager_state.selected, Some(2));
    key(&mut app, KeyCode::Esc);
    assert!(!app.show_manager);
}

#[test]
fn switcher_row_of_a_hidden_translation() {
    let mut app = reader();
    app.hidden = vec![true, false, false];
    assert_eq!(app.switcher_row(), None);
    app.switch_visible_version(true);
    assert_eq!(app.current_version(), "KJV");
    assert_eq!(app.switcher_row(), Some(0));
    app.switch_visible_version(false);
    assert_eq!(app.current_version(), "WEB");
}

#[test]
fn clear_filter_and_update_filter_directly() {
    let mut app = reader();
    app.input_buffer = s("EX");
    app.update_filter();
    assert_eq!(filtered_of(&app), vec![1]);
    app.clear_current_filter();
    assert_eq!(filtered_of(&app), vec![0, 1, 2, 3, 4, 5]);
    assert_eq!(selected(&app), Some(1));
}

#[test]
fn filter_is_fuzzy() {
    let mut app = App::new(vec![s("BSB")], vec![s("Genesis"), s("Exodus")]);
    app.input_buffer = s("gns");
    app.update_filter();
    assert_eq!(filtered_of(&app), vec![0]);
    assert_eq!(selected(&app), Some(0));
    app.input_buffer = s("GNS");
    app.update_filter();
    assert_eq!(filtered_of(&app), vec![0]);
    app.input_buffer = s("sg");
    app.update_filter();
    assert!(filtered_of(&app).is_empty());
    assert_eq!(selected(&app), None);
    app.input_buffer = s("eo");
    app.update_filter();
    assert_eq!(filtered_of(&app), vec![1]);
}

#[test]
fn fuzzy_filter_of_chapters_and_verses() {
    let mut app = reader();
    key(&mut app, KeyCode::Enter);
    app.push_chapters_view(s("Genesis"), fifty());
    press(&mut app, '/');
    typed(&mut app, "15");
    // 15 itself, and no other number below 51 holds 1 then 5.
    assert_eq!(filtered_of(&app), vec![14]);
    key(&mut app, KeyCode::Esc);
    app.push_verses_view(s("Genesis"), 1, vec![verse(1, 1, "Let there be light"), verse(1, 2, "darkness")]);
    press(&mut app, '/');
    typed(&mut app, "ltb");
    assert_eq!(filtered_of(&app), vec![0]);
}

#[test]
fn typing_more_narrows_the_filter() {
    let mut app = reader();
    press(&mut app, '/');
    let mut last = filtered_of(&app);
    for c in "jhn".chars() {
        press(&mut app, c);
        let now = filtered_of(&app);
        assert!(now.iter().all(|i| last.contains(i)));
        last = now;
    }
    assert_eq!(last, vec![3, 5]);
}

#[test]
fn quick_jump_is_fuzzy_after_exact_prefix_and_substring() {
    let mut app = reader();
    press(&mut app, ' ');
    typed(&mut app, "gns 2");
    assert_eq!(vorto::jump::parse_jump_menu(&app), Some((s("Genesis"), Some(2), None)));
    key(&mut app, KeyCode::Esc);
    press(&mut app, ' ');
    typed(&mut app, "jo");
    assert_eq!(vorto::jump::parse_jump_menu(&app), Some((s("Job"), None, None)));
}

#[test]
fn translation_round_trip_by_any_offset() {
    let mut app = reader();
    for start in 0..3 {
        for k in [-7isize, -3, -1, 0, 2, 5, 100] {
            app.current_version_idx = start;
            app.change_version(k);
            assert!(app.current_version_idx < 3);
            app.change_version(-k);
            assert_eq!(app.current_version_idx, start);
        }
    }
}

#[test]
fn manager_choices_are_saved_and_loaded() {
    let mut app = reader();
    press(&mut app, 'T');
    press(&mut app, 'J');
    press(&mut app, 'j');
    press(&mut app, ' ');
    assert!(matches!(key(&mut app, KeyCode::Enter), Effect::SavePreferences));
    assert!(!app.show_manager);
    let text = app.preferences_text();
    assert_eq!(text, "+KJV\n+BSB\n-WEB\n");

    // A fresh start with the saved text gets the same order and marks back,
    // and keeps the translation it started on.
    let mut fresh = App::new(vec![s("BSB"), s("KJV"), s("WEB")], books());
    fresh.load_preferences(&text);
    assert_eq!(fresh.versions, vec![s("KJV"), s("BSB"), s("WEB")]);
    assert_eq!(fresh.hidden, vec![false, false, true]);
    assert_eq!(fresh.current_version(), "BSB");
}

#[test]
fn loading_preferences_skips_unknown_and_malformed_entries() {
    let mut app = App::new(vec![s("BSB"), s("KJV"), s("WEB"), s("LSV")], books());
    app.change_version(2);
    app.load_preferences("-LSV  bogus +NOPE + -\n+WEB -LSV");
    assert_eq!(app.versions, vec![s("LSV"), s("WEB"), s("BSB"), s("KJV")]);
    assert_eq!(app.hidden, vec![true, false, false, false]);
    assert_eq!(app.current_version(), "WEB");
    app.load_preferences("");
    assert_eq!(app.versions, vec![s("LSV"), s("WEB"), s("BSB"), s("KJV")]);
    assert!(matches!(press(&mut app, 'T'), Effect::Nothing));
    assert!(matches!(key(&mut app, KeyCode::Esc), Effect::SavePreferences));
}

fn reopen_all(app: &mut App, reloads: Vec<Reload>) {
    for r in reloads {
        match r {
            Reload::Chapters { book, selected } => app.restore_chapters(book, fifty(), selected),
            Reload::Verses { book, chapter, selected } => app.restore_verses(book, chapter, chapter_three(), selected),
            Reload::Search { query, selected } => app.restore_search(query, vec![], selected),
        }
    }
}

#[test]
fn translation_round_trip_reopens_the_same_lists() {
    let mut app = reader();
    open_genesis_three(&mut app);
    press(&mut app, 'G');
    let before: Vec<(String, Option<usize>)> =
        vec![(app.header_path(), selected(&app)), (s("depth"), Some(app.view_stack.len()))];
    for k in [1isize, 2, -4] {
        app.change_version(k);
        let r = app.rebuild_for_version(books());
        reopen_all(&mut app, r);
        app.change_version(-k);
        let r = app.rebuild_for_version(books());
        reopen_all(&mut app, r);
        let after = vec![(app.header_path(), selected(&app)), (s("depth"), Some(app.view_stack.len()))];
        assert_eq!(after, before);
        assert_eq!(app.view_stack[1].state().selected, Some(2));
    }
}
