use vorto::app::App;
use vorto::display::{
    Tone,
    book_row_text, chapter_row_text, hit_lead_text, hit_row_lines, jump_preview_validity,
    push_left_aligned, push_right_aligned, push_spaces, verse_row_lines,
};
use vorto::model::{SearchResult, Verse};
use vorto::navigate::{
    book_position, chapter_step, clamp_book_index, last_chapter_or_first, plan_sibling_jump,
    ChapterStep, SiblingLanding, Target,
};
use vorto::pane::Pane;

fn s(x: &str) -> String {
    x.to_string()
}

fn verse(chapter: u32, verse: u32, text: &str) -> Verse {
    Verse { chapter, verse, text: s(text) }
}

const HELP: &str =
    "q:quit | -:back | Enter:open | t:version | /:filter | Space:jump | S:search | v:select | y:copy | C-o/i:jump-hist";

#[test]
fn row_texts() {
    assert_eq!(book_row_text("Genesis"), " Genesis");
    assert_eq!(chapter_row_text(5), " Chapter 5");
    assert_eq!(chapter_row_text(150), " Chapter 150");
}

#[test]
fn alignment_helpers() {
    let mut t = String::from("x");
    push_spaces(&mut t, 3);
    assert_eq!(t, "x   ");
    let mut r = String::new();
    push_right_aligned(&mut r, &vec!['7'], 3);
    assert_eq!(r, "  7");
    let mut r = String::new();
    push_right_aligned(&mut r, &vec!['1', '2', '3', '4'], 3);
    assert_eq!(r, "1234");
    let mut l = String::new();
    push_left_aligned(&mut l, "Job", 5);
    assert_eq!(l, "Job  ");
}

#[test]
fn verse_rows_carry_the_number_then_indent() {
    let v = verse(3, 16, "For God so loved the world");
    let rows = verse_row_lines(&v, 10);
    assert!(rows.len() >= 3);
    assert_eq!(rows[0].lead, " 16 ");
    for row in &rows[1..] {
        assert_eq!(row.lead, "    ");
    }
    let text: Vec<String> = rows.iter().map(|r| r.text.clone()).collect();
    assert_eq!(text.join(" "), "For God so loved the world");
    let long = "word ".repeat(40);
    let wrapped = verse_row_lines(&verse(1, 2, long.trim_end()), 30);
    assert!(wrapped.len() >= 7);
    assert!(wrapped.iter().all(|r| r.text.chars().count() <= 30));
    let one = verse_row_lines(&verse(1, 1, "In the beginning"), 80);
    assert_eq!(one.len(), 1);
    assert_eq!(one[0].lead, "  1 ");
    assert_eq!(one[0].text, "In the beginning");
}

#[test]
fn search_hit_lead_and_rows() {
    let hit = SearchResult { book: s("John"), chapter: 3, verse: 16, text: s("For God so loved the world") };
    let lead = hit_lead_text(&hit);
    assert_eq!(lead, format!("{:<15} {:>3}:{:>3} | ", "John", 3, 16));
    assert_eq!(lead, "John              3: 16 | ");
    let rows = hit_row_lines(&hit, lead.len() + 12);
    assert!(rows.len() >= 2);
    assert_eq!(rows[0].lead, lead);
    assert_eq!(rows[1].lead, " ".repeat(lead.len()));
    let text: Vec<String> = rows.iter().map(|r| r.text.clone()).collect();
    assert_eq!(text.join(" "), "For God so loved the world");
    let long = SearchResult { book: s("Song of Solomon"), chapter: 150, verse: 1000, text: s("x") };
    assert_eq!(hit_lead_text(&long), "Song of Solomon 150:1000 | ");
}

#[test]
fn status_and_header_lines() {
    let app = App::new(vec![s("BSB")], vec![s("Genesis")]);
    assert_eq!(app.status_text(), HELP);
    assert_eq!(app.header_path(), "BSB / Books");
}

#[test]
fn visual_range_rows() {
    let verses = vec![verse(1, 1, "a"), verse(1, 2, "b"), verse(1, 3, "c"), verse(1, 4, "d")];
    let p = Pane::new_verses(s("Ruth"), 1, verses);
    assert!(!p.in_visual_range(0));
    let p = match p {
        Pane::Verses { book, chapter, items, filtered, state, .. } => {
            let mut st = state;
            st.select(Some(1));
            Pane::Verses { book, chapter, items, filtered, state: st, visual_start: Some(3) }
        }
        _ => panic!("verse list"),
    };
    assert!(!p.in_visual_range(0));
    assert!(p.in_visual_range(1));
    assert!(p.in_visual_range(2));
    assert!(p.in_visual_range(3));
    assert!(!p.in_visual_range(4));
    assert!(!Pane::new_chapters(s("Ruth"), vec![1]).in_visual_range(0));
}

#[test]
fn jump_preview_colours() {
    let chapters = vec![1, 2, 3];
    let verses = vec![verse(3, 14, "x"), verse(3, 15, "y")];
    assert_eq!(jump_preview_validity(Some(3), Some(15), &chapters, &verses), (true, true));
    assert_eq!(jump_preview_validity(Some(3), Some(99), &chapters, &verses), (true, false));
    assert_eq!(jump_preview_validity(Some(9), Some(15), &chapters, &verses), (false, false));
    assert_eq!(jump_preview_validity(None, None, &chapters, &verses), (true, false));
    assert_eq!(jump_preview_validity(Some(2), None, &chapters, &vec![]), (true, false));
}

#[test]
fn book_positions() {
    let books = vec![s("Genesis"), s("Exodus"), s("Exodus")];
    assert_eq!(book_position(&books, "Exodus"), Some(1));
    assert_eq!(book_position(&books, "Genesis"), Some(0));
    assert_eq!(book_position(&books, "exodus"), None);
    assert_eq!(book_position(&vec![], "Genesis"), None);
}

#[test]
fn book_jumps_stay_in_the_canon() {
    assert_eq!(clamp_book_index(0, -1, 66), 0);
    assert_eq!(clamp_book_index(65, 1, 66), 65);
    assert_eq!(clamp_book_index(3, 1, 66), 4);
    assert_eq!(clamp_book_index(3, -1, 66), 2);
    assert_eq!(clamp_book_index(3, isize::MIN, 66), 0);
    assert_eq!(clamp_book_index(3, isize::MAX, 66), 65);
}

#[test]
fn chapter_jumps() {
    let chapters = vec![1, 2, 3];
    assert!(matches!(chapter_step(&chapters, 2, 5, 1, 66), ChapterStep::Chapter(3)));
    assert!(matches!(chapter_step(&chapters, 2, 5, -1, 66), ChapterStep::Chapter(1)));
    assert!(matches!(chapter_step(&chapters, 1, 5, -1, 66), ChapterStep::PreviousBook(4)));
    assert!(matches!(chapter_step(&chapters, 3, 5, 1, 66), ChapterStep::NextBook(6)));
    assert!(matches!(chapter_step(&chapters, 1, 0, -1, 66), ChapterStep::PreviousBook(0)));
    assert!(matches!(chapter_step(&chapters, 3, 65, 1, 66), ChapterStep::NextBook(65)));
    assert!(matches!(chapter_step(&chapters, 9, 5, 1, 66), ChapterStep::Keep));
    assert!(matches!(chapter_step(&vec![], 1, 5, 1, 66), ChapterStep::Keep));
}

#[test]
fn last_chapter_of_a_book() {
    assert_eq!(last_chapter_or_first(&vec![]), 1);
    assert_eq!(last_chapter_or_first(&(1..=50).collect()), 50);
}

#[test]
fn sibling_origin_and_enter_target() {
    let mut app = App::new(vec![s("BSB")], vec![s("Genesis"), s("Exodus")]);
    assert_eq!(app.sibling_origin(), None);
    match app.enter_view() {
        Some(Target::Chapters { book }) => assert_eq!(book, "Genesis"),
        _ => panic!("the book list opens chapters"),
    }
    app.push_chapters_view(s("Exodus"), vec![1, 2]);
    assert_eq!(app.sibling_origin(), Some((s("Exodus"), 1)));
    match app.enter_view() {
        Some(Target::Verses { book, chapter, verse }) => {
            assert_eq!((book.as_str(), chapter, verse), ("Exodus", 1, None))
        }
        _ => panic!("the chapter list opens verses"),
    }
    app.push_verses_view(s("Exodus"), 2, vec![verse(2, 1, "a")]);
    assert_eq!(app.sibling_origin(), Some((s("Exodus"), 2)));
    assert!(app.enter_view().is_none());
    app.input_buffer = s("q");
    app.perform_global_search(vec![]);
    assert_eq!(app.sibling_origin(), Some((s("Exodus"), 2)));
    assert!(app.enter_view().is_none());
}

#[test]
fn sibling_jump_landings() {
    let books = vec![s("Genesis"), s("Exodus"), s("Leviticus")];
    let three = vec![1, 2, 3];
    let at = |book, chapter| Some(SiblingLanding::At { book, chapter });
    assert_eq!(plan_sibling_jump(&books, "Exodus", 2, 1, false, &three), at(1, 3));
    assert_eq!(plan_sibling_jump(&books, "Exodus", 3, 1, false, &three), at(2, 1));
    assert_eq!(plan_sibling_jump(&books, "Exodus", 1, -1, false, &three), Some(SiblingLanding::EndOf { book: 0 }));
    assert_eq!(plan_sibling_jump(&books, "Genesis", 1, -1, false, &three), Some(SiblingLanding::EndOf { book: 0 }));
    assert_eq!(plan_sibling_jump(&books, "Leviticus", 3, 1, false, &three), at(2, 1));
    assert_eq!(plan_sibling_jump(&books, "Exodus", 7, 1, false, &three), at(1, 7));
    assert_eq!(plan_sibling_jump(&books, "Exodus", 2, 1, true, &vec![]), at(2, 1));
    assert_eq!(plan_sibling_jump(&books, "Exodus", 2, -1, true, &vec![]), at(0, 1));
    assert_eq!(plan_sibling_jump(&books, "Leviticus", 2, 1, true, &vec![]), at(2, 1));
    assert_eq!(plan_sibling_jump(&books, "Tobit", 1, 1, true, &vec![]), None);
}

#[test]
fn header_line_with_and_without_number() {
    let mut app = App::new(vec![s("BSB")], vec![s("Genesis")]);
    assert_eq!(app.header_text(), " BSB / Books ");
    app.number_buffer = s("12");
    assert_eq!(app.header_text(), " BSB / Books  | Jump: 12");
    app.push_verses_view(s("Genesis"), 3, vec![]);
    app.number_buffer = String::new();
    assert_eq!(app.header_text(), " BSB / Genesis / 3 ");
}

fn popup_texts(lines: &[Vec<vorto::display::Segment>]) -> Vec<Vec<(String, Tone)>> {
    lines.iter().map(|l| l.iter().map(|s| (s.text.clone(), s.tone)).collect()).collect()
}

#[test]
fn quick_jump_popup_lines() {
    let mut app = App::new(vec![s("BSB")], vec![s("Genesis"), s("Exodus")]);
    app.jump_menu_buffer = s("xyz");
    let lines = popup_texts(&app.jump_popup_lines(&vec![], &vec![]));
    assert_eq!(lines.len(), 5);
    assert_eq!(lines[0], vec![(s("Type: <Book> [Chapter] [Verse]"), Tone::Hint)]);
    assert!(lines[1].is_empty() && lines[3].is_empty());
    assert_eq!(lines[2], vec![(s("> xyz\u{2588}"), Tone::Plain)]);
    assert_eq!(lines[4], vec![(s("No match..."), Tone::Faint)]);

    app.jump_menu_buffer = s("gen 3 15");
    let chapters = vec![1, 2, 3];
    let verses = vec![verse(3, 14, "a"), verse(3, 15, "b")];
    let lines = popup_texts(&app.jump_popup_lines(&chapters, &verses));
    assert_eq!(
        lines[4],
        vec![
            (s("Genesis"), Tone::Valid),
            (s(" "), Tone::Plain),
            (s("3"), Tone::Valid),
            (s(":"), Tone::Plain),
            (s("15"), Tone::Valid),
        ]
    );
    app.jump_menu_buffer = s("exo 9 1");
    let lines = popup_texts(&app.jump_popup_lines(&chapters, &vec![]));
    assert_eq!(
        lines[4],
        vec![
            (s("Exodus"), Tone::Valid),
            (s(" "), Tone::Plain),
            (s("9"), Tone::Invalid),
            (s(":"), Tone::Plain),
            (s("1"), Tone::Invalid),
        ]
    );
    app.jump_menu_buffer = s("exo");
    let lines = popup_texts(&app.jump_popup_lines(&vec![], &vec![]));
    assert_eq!(lines[4], vec![(s("Exodus"), Tone::Valid)]);
}

#[test]
fn rows_from_wrapped_lines() {
    let rows = vorto::display::build_rows(vec![s("one"), s("two"), s("three")], s("  7 "), s("    "));
    let got: Vec<(String, String)> = rows.into_iter().map(|r| (r.lead, r.text)).collect();
    assert_eq!(
        got,
        vec![(s("  7 "), s("one")), (s("    "), s("two")), (s("    "), s("three"))]
    );
    assert!(vorto::display::build_rows(vec![], s("a"), s("b")).is_empty());
}

#[test]
fn book_matching_modes() {
    let lowered = vec![s("job"), s("john"), s("1 john"), s("genesis")];
    assert_eq!(vorto::jump::first_book_match(&lowered, &s("john"), 0), Some(1));
    assert_eq!(vorto::jump::first_book_match(&lowered, &s("jo"), 0), None);
    assert_eq!(vorto::jump::first_book_match(&lowered, &s("jo"), 1), Some(0));
    assert_eq!(vorto::jump::first_book_match(&lowered, &s("ohn"), 1), None);
    assert_eq!(vorto::jump::first_book_match(&lowered, &s("ohn"), 2), Some(1));
    assert_eq!(vorto::jump::first_book_match(&lowered, &s("gns"), 2), None);
    assert_eq!(vorto::jump::first_book_match(&lowered, &s("gns"), 3), Some(3));
    assert_eq!(vorto::jump::first_book_match(&lowered, &s("1jn"), 3), Some(2));
}
