//! The session: its state, what a key does to it, and what the caller is
//! asked to do in return.

use vstd::prelude::*;
use crate::book::{markdown_of, Book, BookView};
use crate::book_list::{first_of, next_of, previous_of, BookList};
use crate::fetch::{message_of, outcome_view, FetchError, FetchErrorView};
use crate::keys::{next_mode, InputMode, Key};
use crate::screen::{footer_text, screen_of, Screen};
use crate::text::text_view;

verus! {

/// The state of a session, as mathematical values.
#[verifier::ext_equal]
pub struct AppView {
    pub mode: InputMode,
    pub query: Seq<char>,
    pub results: Seq<BookView>,
    pub selection: Option<nat>,
    pub status: Option<Seq<char>>,
    pub last_error: Option<Seq<char>>,
}

/// What the caller has to do after a key, as mathematical values.
#[verifier::ext_equal]
pub enum ActionView {
    Nothing,
    Exit,
    Search(Seq<char>),
    Copy(Seq<char>),
}

/// What the caller has to do after a key.
#[derive(Debug, Clone, PartialEq, Eq)]
pub enum Action {
    /// Go on with the next key.
    Nothing,
    /// End the session.
    Exit,
    /// Run one search for this query and report how it ended with
    /// [`App::search_finished`].
    Search(String),
    /// Write this text to the clipboard.
    Copy(String),
}

impl View for Action {
    type V = ActionView;

    open spec fn view(&self) -> ActionView {
        match self {
            Action::Nothing => ActionView::Nothing,
            Action::Exit => ActionView::Exit,
            Action::Search(query) => ActionView::Search(query@),
            Action::Copy(text) => ActionView::Copy(text@),
        }
    }
}

/// The states a session can be in: the selection names a result, and while
/// the list is browsed something is selected unless there is nothing to select.
pub open spec fn valid(s: AppView) -> bool {
    &&& s.selection matches Some(i) ==> i < s.results.len()
    &&& s.mode == InputMode::Viewing ==> (s.selection is None <==> s.results.len() == 0)
}

/// The state of a new session.
pub open spec fn initial() -> AppView {
    AppView {
        mode: InputMode::Normal,
        query: Seq::empty(),
        results: Seq::empty(),
        selection: None,
        status: None,
        last_error: None,
    }
}

/// The message that confirms an export.
pub open spec fn copied_message() -> Seq<char> {
    "Saved to clipboard!"@
}

/// The text shown in place of an export when nothing is selected.
pub open spec fn placeholder() -> Seq<char> {
    "Search something!"@
}

/// The query after a key in editing mode.
pub open spec fn edited(query: Seq<char>, key: Key) -> Seq<char> {
    match key {
        Key::Char(c) => query.push(c),
        Key::Backspace => if query.len() == 0 {
            query
        } else {
            query.drop_last()
        },
        _ => query,
    }
}

/// The export text of the selected result, if one is selected.
pub open spec fn selected_markdown(s: AppView) -> Option<Seq<char>> {
    match s.selection {
        Some(i) => if i < s.results.len() {
            Some(markdown_of(s.results[i as int]))
        } else {
            None
        },
        None => None,
    }
}

/// The state after a key.
pub open spec fn after_key(s: AppView, key: Key) -> AppView {
    match s.mode {
        InputMode::Normal => if key == Key::Char('v') {
            AppView { mode: InputMode::Viewing, selection: first_of(s.results.len()), ..s }
        } else {
            AppView { mode: next_mode(s.mode, key), ..s }
        },
        InputMode::Editing => AppView {
            mode: next_mode(s.mode, key),
            query: edited(s.query, key),
            ..s
        },
        InputMode::Viewing => match key {
            Key::Down => AppView { selection: next_of(s.selection, s.results.len()), ..s },
            Key::Up => AppView { selection: previous_of(s.selection, s.results.len()), ..s },
            Key::Enter => if selected_markdown(s) is Some {
                AppView { status: Some(copied_message()), ..s }
            } else {
                s
            },
            _ => AppView { mode: next_mode(s.mode, key), ..s },
        },
    }
}

/// The state after a run of keys, from the first to the last.
pub open spec fn after_keys(s: AppView, keys: Seq<Key>) -> AppView
    decreases keys.len(),
{
    if keys.len() == 0 {
        s
    } else {
        after_key(after_keys(s, keys.drop_last()), keys.last())
    }
}

/// What the caller is asked to do after a key.
pub open spec fn action_for(s: AppView, key: Key) -> ActionView {
    match s.mode {
        InputMode::Normal => if key == Key::Char('q') {
            ActionView::Exit
        } else {
            ActionView::Nothing
        },
        InputMode::Editing => if key == Key::Enter {
            ActionView::Search(s.query)
        } else {
            ActionView::Nothing
        },
        InputMode::Viewing => if key == Key::Enter {
            match selected_markdown(s) {
                Some(text) => ActionView::Copy(text),
                None => ActionView::Nothing,
            }
        } else {
            ActionView::Nothing
        },
    }
}

/// The state after a search has ended. Found records replace the list, even
/// when none was found; a failure leaves all but the error message as it was.
pub open spec fn after_search(s: AppView, outcome: Result<Seq<BookView>, FetchErrorView>) -> AppView {
    match outcome {
        Ok(books) => AppView {
            mode: InputMode::Viewing,
            results: books,
            selection: first_of(books.len()),
            last_error: None,
            ..s
        },
        Err(e) => AppView { last_error: Some(message_of(e)), ..s },
    }
}

/// The state after the status has been handed out.
pub open spec fn after_take(s: AppView) -> AppView {
    AppView { status: None, ..s }
}

/// The text of the export pane: the export text of the selected result, or
/// the placeholder.
pub open spec fn shown_markdown(s: AppView) -> Seq<char> {
    match selected_markdown(s) {
        Some(text) => text,
        None => placeholder(),
    }
}

/// A session.
#[derive(Debug)]
pub struct App {
    isbn: String,
    input_mode: InputMode,
    flash: Option<String>,
    error: Option<String>,
    book_list: BookList,
}

impl View for App {
    type V = AppView;

    closed spec fn view(&self) -> AppView {
        AppView {
            mode: self.input_mode,
            query: self.isbn@,
            results: self.book_list@.items,
            selection: self.book_list@.selected,
            status: text_view(self.flash),
            last_error: text_view(self.error),
        }
    }
}

impl Default for App {
    fn default() -> (app: App)
        ensures
            app@ == initial(),
    {
        App {
            isbn: String::new(),
            input_mode: InputMode::Normal,
            flash: None,
            error: None,
            book_list: BookList::default(),
        }
    }
}

impl App {
    /// Handles one key and says what the caller has to do. No key is dropped:
    /// one that the mode does not react to changes nothing.
    pub fn handle_key(&mut self, key: Key) -> (action: Action)
        ensures
            final(self)@ == after_key(old(self)@, key),
            final(self)@.mode == next_mode(old(self)@.mode, key),
            action@ == action_for(old(self)@, key),
            valid(old(self)@) ==> valid(final(self)@),
    {
        match self.input_mode {
            InputMode::Normal => match key {
                Key::Char(c) => {
                    if c == 'e' {
                        self.input_mode = InputMode::Editing;
                        Action::Nothing
                    } else if c == 'v' {
                        self.book_list.select_first();
                        self.input_mode = InputMode::Viewing;
                        Action::Nothing
                    } else if c == 'q' {
                        Action::Exit
                    } else {
                        Action::Nothing
                    }
                },
                _ => Action::Nothing,
            },
            InputMode::Editing => match key {
                Key::Enter => Action::Search(self.isbn.clone()),
                Key::Char(c) => {
                    self.isbn.push(c);
                    Action::Nothing
                },
                Key::Backspace => {
                    self.isbn.pop();
                    Action::Nothing
                },
                Key::Esc => {
                    self.input_mode = InputMode::Normal;
                    Action::Nothing
                },
                _ => Action::Nothing,
            },
            InputMode::Viewing => match key {
                Key::Down => {
                    self.book_list.select_next();
                    Action::Nothing
                },
                Key::Up => {
                    self.book_list.select_previous();
                    Action::Nothing
                },
                Key::Enter => {
                    match self.book_list.selected_book() {
                        Some(book) => {
                            let text = book.markdown();
                            self.flash = Some("Saved to clipboard!".to_owned());
                            Action::Copy(text)
                        },
                        None => Action::Nothing,
                    }
                },
                Key::Char(c) => {
                    if c == 'q' {
                        self.input_mode = InputMode::Normal;
                    }
                    Action::Nothing
                },
                _ => Action::Nothing,
            },
        }
    }

    /// Takes in how a search ended. Found records replace the list and are
    /// browsed from the first; a failure is kept as a message and changes
    /// nothing else.
    pub fn search_finished(&mut self, outcome: Result<Vec<Book>, FetchError>)
        ensures
            final(self)@ == after_search(old(self)@, outcome_view(outcome)),
            outcome is Ok || valid(old(self)@) ==> valid(final(self)@),
    {
        match outcome {
            Ok(books) => {
                let mut list = BookList::from_books(books);
                list.select_first();
                self.book_list = list;
                self.error = None;
                self.input_mode = InputMode::Viewing;
            },
            Err(e) => {
                self.error = Some(e.message());
            },
        }
    }

    /// Hands out the pending status and forgets it, so that it is shown once.
    pub fn take_flash(&mut self) -> (status: Option<String>)
        ensures
            text_view(status) == old(self)@.status,
            final(self)@ == after_take(old(self)@),
    {
        self.flash.take()
    }

    /// The text of the export pane.
    pub fn markdown_text(&self) -> (text: String)
        ensures
            text@ == shown_markdown(self@),
    {
        match self.book_list.selected_book() {
            Some(book) => book.markdown(),
            None => "Search something!".to_owned(),
        }
    }

    /// Lists what the next frame shows. The pending status goes into the
    /// frame's bottom line and is forgotten; nothing else changes.
    pub fn render(&mut self) -> (screen: Screen)
        ensures
            screen@ == screen_of(old(self)@),
            final(self)@ == after_take(old(self)@),
    {
        let lines = self.book_list.labels();
        let markdown = self.markdown_text();
        let status = self.flash.take();
        let screen = Screen {
            query: self.isbn.clone(),
            query_highlighted: self.input_mode == InputMode::Editing,
            lines,
            selected: self.book_list.selected(),
            markdown,
            markdown_highlighted: self.input_mode == InputMode::Viewing,
            footer: footer_text(status, self.input_mode),
        };
        assert(screen@.lines =~= screen_of(old(self)@).lines);
        screen
    }

    pub fn mode(&self) -> (mode: InputMode)
        ensures
            mode == self@.mode,
    {
        self.input_mode
    }

    pub fn query(&self) -> (query: &str)
        ensures
            query@ == self@.query,
    {
        self.isbn.as_str()
    }

    /// The result list with its cursor.
    pub fn results(&self) -> (list: &BookList)
        ensures
            list@.items == self@.results,
            list@.selected == self@.selection,
    {
        &self.book_list
    }

    /// The selected position. It always names a result.
    pub fn selection(&self) -> (cursor: Option<usize>)
        ensures
            cursor matches Some(i) ==> (self@.selection == Some(i as nat) && i < self@.results.len()),
            cursor is None ==> self@.selection is None,
    {
        self.book_list.selected()
    }

    /// The message of the last search that failed, until a search succeeds.
    pub fn last_error(&self) -> (message: Option<&str>)
        ensures
            match message {
                Some(text) => self@.last_error == Some(text@),
                None => self@.last_error is None,
            },
    {
        match &self.error {
            Some(text) => Some(text.as_str()),
            None => None,
        }
    }
}

} // verus!
