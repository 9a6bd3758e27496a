use babelio_search::app::{Action, App};
use babelio_search::screen::{footer_text, help_text};
use babelio_search::book::Book;
use babelio_search::fetch::FetchError;
use babelio_search::keys::{InputMode, Key};

fn three_books() -> Vec<Book> {
    vec![
        Book::new("Dune", "Frank Herbert", "https://www.babelio.com/livres/dune/1", "https://www.babelio.com/couv/1.jpg"),
        Book::new("Emma", "Jane Austen", "https://www.babelio.com/livres/emma/2", "https://www.babelio.com/couv/2.jpg"),
        Book::new("Ulysse", "James Joyce", "https://www.babelio.com/livres/ulysse/3", ""),
    ]
}

fn type_text(app: &mut App, text: &str) {
    for c in text.chars() {
        assert_eq!(app.handle_key(Key::Char(c)), Action::Nothing);
    }
}

fn browsing(books: Vec<Book>) -> App {
    let mut app = App::default();
    app.handle_key(Key::Char('e'));
    app.search_finished(Ok(books));
    app
}

#[test]
fn new_session_is_normal_and_empty() {
    let app = App::default();
    assert_eq!(app.mode(), InputMode::Normal);
    assert_eq!(app.query(), "");
    assert!(app.results().is_empty());
    assert_eq!(app.results().len(), 0);
    assert_eq!(app.selection(), None);
    assert_eq!(app.last_error(), None);
    assert_eq!(app.markdown_text(), "Search something!");
}

#[test]
fn normal_e_starts_editing() {
    let mut app = App::default();
    assert_eq!(app.handle_key(Key::Char('e')), Action::Nothing);
    assert_eq!(app.mode(), InputMode::Editing);
}

#[test]
fn normal_v_with_no_results_selects_nothing() {
    let mut app = App::default();
    assert_eq!(app.handle_key(Key::Char('v')), Action::Nothing);
    assert_eq!(app.mode(), InputMode::Viewing);
    assert_eq!(app.selection(), None);
}

#[test]
fn normal_v_goes_back_to_the_first_result() {
    let mut app = browsing(three_books());
    app.handle_key(Key::Down);
    app.handle_key(Key::Down);
    assert_eq!(app.selection(), Some(2));
    app.handle_key(Key::Char('q'));
    assert_eq!(app.mode(), InputMode::Normal);
    assert_eq!(app.selection(), Some(2));
    app.handle_key(Key::Char('v'));
    assert_eq!(app.mode(), InputMode::Viewing);
    assert_eq!(app.selection(), Some(0));
}

#[test]
fn normal_q_asks_to_exit() {
    let mut app = App::default();
    assert_eq!(app.handle_key(Key::Char('q')), Action::Exit);
    assert_eq!(app.mode(), InputMode::Normal);
}

#[test]
fn normal_ignores_other_keys() {
    let mut app = App::default();
    for key in [Key::Enter, Key::Backspace, Key::Esc, Key::Up, Key::Down, Key::Other, Key::Char('x'), Key::Char('E')] {
        assert_eq!(app.handle_key(key), Action::Nothing);
        assert_eq!(app.mode(), InputMode::Normal);
        assert_eq!(app.query(), "");
        assert_eq!(app.selection(), None);
    }
}

#[test]
fn editing_appends_and_removes_characters() {
    let mut app = App::default();
    app.handle_key(Key::Char('e'));
    type_text(&mut app, "978é");
    assert_eq!(app.query(), "978é");
    assert_eq!(app.handle_key(Key::Backspace), Action::Nothing);
    assert_eq!(app.query(), "978");
    type_text(&mut app, "qve");
    assert_eq!(app.query(), "978qve");
    assert_eq!(app.mode(), InputMode::Editing);
}

#[test]
fn editing_backspace_on_empty_query_changes_nothing() {
    let mut app = App::default();
    app.handle_key(Key::Char('e'));
    assert_eq!(app.handle_key(Key::Backspace), Action::Nothing);
    assert_eq!(app.query(), "");
    assert_eq!(app.mode(), InputMode::Editing);
}

#[test]
fn editing_escape_keeps_the_query() {
    let mut app = App::default();
    app.handle_key(Key::Char('e'));
    type_text(&mut app, "dune");
    assert_eq!(app.handle_key(Key::Esc), Action::Nothing);
    assert_eq!(app.mode(), InputMode::Normal);
    assert_eq!(app.query(), "dune");
}

#[test]
fn editing_enter_asks_for_a_search_and_waits() {
    let mut app = App::default();
    app.handle_key(Key::Char('e'));
    type_text(&mut app, "9782070368228");
    assert_eq!(app.handle_key(Key::Enter), Action::Search("9782070368228".to_string()));
    assert_eq!(app.mode(), InputMode::Editing);
    assert_eq!(app.query(), "9782070368228");
    assert!(app.results().is_empty());
}

#[test]
fn editing_ignores_arrows() {
    let mut app = App::default();
    app.handle_key(Key::Char('e'));
    type_text(&mut app, "a");
    for key in [Key::Up, Key::Down, Key::Other] {
        assert_eq!(app.handle_key(key), Action::Nothing);
        assert_eq!(app.mode(), InputMode::Editing);
        assert_eq!(app.query(), "a");
    }
}

#[test]
fn successful_search_shows_the_records_from_the_first() {
    let mut app = App::default();
    app.handle_key(Key::Char('e'));
    app.search_finished(Err(FetchError::Protocol));
    assert!(app.last_error().is_some());
    app.search_finished(Ok(three_books()));
    assert_eq!(app.mode(), InputMode::Viewing);
    assert_eq!(app.results().len(), 3);
    assert_eq!(app.selection(), Some(0));
    assert_eq!(app.last_error(), None);
    assert_eq!(app.results().get(1), Some(&three_books()[1]));
    assert_eq!(app.results().get(3), None);
}

#[test]
fn successful_search_replaces_earlier_records() {
    let mut app = browsing(three_books());
    app.handle_key(Key::Down);
    app.handle_key(Key::Down);
    app.search_finished(Ok(vec![Book::new("Solaris", "Stanislas Lem", "u", "t")]));
    assert_eq!(app.results().len(), 1);
    assert_eq!(app.results().get(0).map(|b| b.title()), Some("Solaris"));
    assert_eq!(app.selection(), Some(0));
    assert_eq!(app.mode(), InputMode::Viewing);
}

#[test]
fn empty_search_result_is_browsed_with_nothing_selected() {
    let mut app = App::default();
    app.handle_key(Key::Char('e'));
    type_text(&mut app, "zzz");
    app.search_finished(Ok(Vec::new()));
    assert_eq!(app.mode(), InputMode::Viewing);
    assert!(app.results().is_empty());
    assert_eq!(app.selection(), None);
    assert_eq!(app.handle_key(Key::Down), Action::Nothing);
    assert_eq!(app.selection(), None);
    assert_eq!(app.handle_key(Key::Up), Action::Nothing);
    assert_eq!(app.selection(), None);
    assert_eq!(app.handle_key(Key::Enter), Action::Nothing);
    assert_eq!(app.take_flash(), None);
}

#[test]
fn failed_search_keeps_mode_and_records() {
    let mut app = App::default();
    app.handle_key(Key::Char('e'));
    type_text(&mut app, "dune");
    app.search_finished(Err(FetchError::Network("connection refused".to_string())));
    assert_eq!(app.mode(), InputMode::Editing);
    assert!(app.results().is_empty());
    assert_eq!(app.selection(), None);
    assert_eq!(app.query(), "dune");
    assert_eq!(app.last_error(), Some("network error: connection refused"));
}

#[test]
fn failed_search_after_a_good_one_keeps_the_old_records() {
    let mut app = browsing(three_books());
    app.handle_key(Key::Down);
    app.handle_key(Key::Char('q'));
    app.handle_key(Key::Char('e'));
    app.search_finished(Err(FetchError::Network(String::new())));
    assert_eq!(app.mode(), InputMode::Editing);
    assert_eq!(app.results().len(), 3);
    assert_eq!(app.selection(), Some(1));
    let message = app.last_error().map(|m| m.to_string());
    assert_eq!(message, Some("network error: ".to_string()));
    assert!(!message.unwrap().is_empty());
}

#[test]
fn down_stops_at_the_last_record() {
    let mut app = browsing(three_books());
    let mut seen = Vec::new();
    for _ in 0..6 {
        assert_eq!(app.handle_key(Key::Down), Action::Nothing);
        seen.push(app.selection());
    }
    assert_eq!(seen, vec![Some(1), Some(2), Some(2), Some(2), Some(2), Some(2)]);
    assert_eq!(app.mode(), InputMode::Viewing);
}

#[test]
fn up_stops_at_the_first_record() {
    let mut app = browsing(three_books());
    app.handle_key(Key::Down);
    app.handle_key(Key::Down);
    let mut seen = Vec::new();
    for _ in 0..5 {
        assert_eq!(app.handle_key(Key::Up), Action::Nothing);
        seen.push(app.selection());
    }
    assert_eq!(seen, vec![Some(1), Some(0), Some(0), Some(0), Some(0)]);
}

#[test]
fn enter_exports_the_selected_record() {
    let mut app = browsing(three_books());
    app.handle_key(Key::Down);
    app.handle_key(Key::Down);
    assert_eq!(app.selection(), Some(2));
    let action = app.handle_key(Key::Enter);
    assert_eq!(
        action,
        Action::Copy(
            "Ulysse par James Joyce\n- Sur [Babelio](https://www.babelio.com/livres/ulysse/3)\nThumb: ".to_string()
        )
    );
    assert_eq!(app.mode(), InputMode::Viewing);
    assert_eq!(app.selection(), Some(2));
    assert_eq!(app.take_flash(), Some("Saved to clipboard!".to_string()));
    assert_eq!(app.take_flash(), None);
}

#[test]
fn export_text_has_title_link_and_thumbnail() {
    let app = browsing(three_books());
    assert_eq!(
        app.markdown_text(),
        "Dune par Frank Herbert\n- Sur [Babelio](https://www.babelio.com/livres/dune/1)\nThumb: https://www.babelio.com/couv/1.jpg"
    );
    assert_eq!(app.markdown_text(), three_books()[0].markdown());
}

#[test]
fn viewing_q_returns_to_normal() {
    let mut app = browsing(three_books());
    app.handle_key(Key::Down);
    assert_eq!(app.handle_key(Key::Char('q')), Action::Nothing);
    assert_eq!(app.mode(), InputMode::Normal);
    assert_eq!(app.results().len(), 3);
}

#[test]
fn viewing_ignores_other_keys() {
    let mut app = browsing(three_books());
    for key in [Key::Backspace, Key::Esc, Key::Other, Key::Char('e'), Key::Char('v'), Key::Char('x')] {
        assert_eq!(app.handle_key(key), Action::Nothing);
        assert_eq!(app.mode(), InputMode::Viewing);
        assert_eq!(app.selection(), Some(0));
        assert_eq!(app.query(), "");
    }
}

#[test]
fn mode_follows_the_table_for_a_run_of_keys() {
    let mut app = App::default();
    let keys = [
        (Key::Char('x'), InputMode::Normal),
        (Key::Char('e'), InputMode::Editing),
        (Key::Char('v'), InputMode::Editing),
        (Key::Char('q'), InputMode::Editing),
        (Key::Enter, InputMode::Editing),
        (Key::Esc, InputMode::Normal),
        (Key::Char('v'), InputMode::Viewing),
        (Key::Char('e'), InputMode::Viewing),
        (Key::Esc, InputMode::Viewing),
        (Key::Enter, InputMode::Viewing),
        (Key::Char('q'), InputMode::Normal),
        (Key::Char('q'), InputMode::Normal),
    ];
    for (key, expected) in keys {
        app.handle_key(key);
        assert_eq!(app.mode(), expected);
    }
}

#[test]
fn same_keys_give_the_same_mode_whatever_the_records() {
    let mut empty = App::default();
    let mut full = browsing(three_books());
    full.handle_key(Key::Char('q'));
    for key in [Key::Char('v'), Key::Down, Key::Enter, Key::Char('q'), Key::Char('e'), Key::Char('a'), Key::Esc] {
        empty.handle_key(key);
        full.handle_key(key);
        assert_eq!(empty.mode(), full.mode());
    }
}

#[test]
fn status_is_shown_on_one_frame_only() {
    let mut app = browsing(three_books());
    app.handle_key(Key::Down);
    app.handle_key(Key::Enter);
    let first = app.render();
    let second = app.render();
    let help = "Select a result with Up/Down, press Enter to copy to clipboard press 'q' to go back";
    assert_eq!(first.footer, format!("Saved to clipboard! || {}", help));
    assert_eq!(second.footer, help);
    assert_eq!(first.lines, second.lines);
    assert_eq!(first.selected, Some(1));
    assert_eq!(second.selected, Some(1));
    assert_eq!(first.query, second.query);
    assert_eq!(first.markdown, second.markdown);
    assert_eq!(app.results().len(), 3);
    assert_eq!(app.selection(), Some(1));
    assert_eq!(app.mode(), InputMode::Viewing);
}

#[test]
fn frame_lists_what_the_session_holds() {
    let mut app = App::default();
    app.handle_key(Key::Char('e'));
    type_text(&mut app, "dune");
    let editing = app.render();
    assert_eq!(editing.query, "dune");
    assert!(editing.query_highlighted);
    assert!(!editing.markdown_highlighted);
    assert!(editing.lines.is_empty());
    assert_eq!(editing.selected, None);
    assert_eq!(editing.markdown, "Search something!");
    assert_eq!(editing.footer, "Enter query, press Enter to search, Esc to cancel");

    app.search_finished(Ok(three_books()));
    let viewing = app.render();
    assert!(!viewing.query_highlighted);
    assert!(viewing.markdown_highlighted);
    assert_eq!(viewing.lines, vec!["Dune by Frank Herbert", "Emma by Jane Austen", "Ulysse by James Joyce"]);
    assert_eq!(viewing.selected, Some(0));
    assert_eq!(viewing.markdown, three_books()[0].markdown());

    app.handle_key(Key::Char('q'));
    let normal = app.render();
    assert!(!normal.query_highlighted);
    assert!(!normal.markdown_highlighted);
    assert_eq!(normal.footer, "Press 'e' to edit query, 'v' to navigate results, 'q' to quit");
}

#[test]
fn help_and_footer_texts() {
    assert_eq!(help_text(InputMode::Normal), "Press 'e' to edit query, 'v' to navigate results, 'q' to quit");
    assert_eq!(help_text(InputMode::Editing), "Enter query, press Enter to search, Esc to cancel");
    assert_eq!(
        footer_text(Some("Done".to_string()), InputMode::Editing),
        "Done || Enter query, press Enter to search, Esc to cancel"
    );
    assert_eq!(footer_text(None, InputMode::Editing), "Enter query, press Enter to search, Esc to cancel");
}
