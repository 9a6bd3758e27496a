//! The result list and its selection cursor.

use vstd::prelude::*;
use crate::book::{Book, BookView};

verus! {

/// What a [`BookList`] holds: the entries in order and the selected position.
#[verifier::ext_equal]
pub struct BookListView {
    pub items: Seq<BookView>,
    pub selected: Option<nat>,
}

/// The entries of a sequence of books, each taken by its view.
pub open spec fn views_of(books: Seq<Book>) -> Seq<BookView> {
    Seq::new(books.len(), |i: int| books[i]@)
}

/// A cursor is in range when it names a position of the list, or nothing.
pub open spec fn cursor_in_range(list: BookListView) -> bool {
    list.selected matches Some(i) ==> i < list.items.len()
}

/// The cursor on the first entry, or on nothing where there is none.
pub open spec fn first_of(len: nat) -> Option<nat> {
    if len == 0 {
        None
    } else {
        Some(0nat)
    }
}

/// The cursor after moving one entry down: it stops at the last entry, and
/// with nothing selected it goes to the first. An empty list selects nothing.
pub open spec fn next_of(selected: Option<nat>, len: nat) -> Option<nat> {
    if len == 0 {
        None
    } else {
        match selected {
            Some(i) => if i + 1 < len {
                Some(i + 1)
            } else {
                Some((len - 1) as nat)
            },
            None => Some(0nat),
        }
    }
}

/// The cursor after moving one entry up: it stops at the first entry, and
/// with nothing selected it goes to the last. An empty list selects nothing.
pub open spec fn previous_of(selected: Option<nat>, len: nat) -> Option<nat> {
    if len == 0 {
        None
    } else {
        match selected {
            Some(i) => if i == 0 {
                Some(0nat)
            } else if i - 1 < len {
                Some((i - 1) as nat)
            } else {
                Some((len - 1) as nat)
            },
            None => Some((len - 1) as nat),
        }
    }
}

/// An ordered list of books with at most one of them selected.
#[derive(Debug)]
pub struct BookList {
    items: Vec<Book>,
    selected: Option<usize>,
}

impl View for BookList {
    type V = BookListView;

    closed spec fn view(&self) -> BookListView {
        BookListView {
            items: views_of(self.items@),
            selected: match self.selected {
                Some(i) => Some(i as nat),
                None => None,
            },
        }
    }
}

impl Default for BookList {
    fn default() -> (list: BookList)
        ensures
            list@.items.len() == 0,
            list@.selected is None,
    {
        BookList { items: Vec::new(), selected: None }
    }
}

impl BookList {
    #[verifier::type_invariant]
    spec fn in_range(self) -> bool {
        self.selected matches Some(i) ==> i < self.items.len()
    }

    /// A list of the given books, in their order, with nothing selected.
    pub fn from_books(items: Vec<Book>) -> (list: BookList)
        ensures
            list@.items == views_of(items@),
            list@.selected is None,
    {
        BookList { items, selected: None }
    }

    /// A list built from rows of title, author, page address and thumbnail
    /// address, with nothing selected.
    pub fn from_rows(rows: &Vec<(&str, &str, &str, &str)>) -> (list: BookList)
        ensures
            list@.selected is None,
            list@.items.len() == rows.len(),
            forall|i: int|
                0 <= i < rows.len() ==> #[trigger] list@.items[i] == (BookView {
                    title: rows[i].0@,
                    author: rows[i].1@,
                    url: rows[i].2@,
                    thumbnail: rows[i].3@,
                }),
    {
        let mut items: Vec<Book> = Vec::new();
        let mut k: usize = 0;
        while k < rows.len()
            invariant
                k <= rows.len(),
                items.len() == k,
                forall|i: int|
                    0 <= i < k ==> #[trigger] items[i]@ == (BookView {
                        title: rows[i].0@,
                        author: rows[i].1@,
                        url: rows[i].2@,
                        thumbnail: rows[i].3@,
                    }),
            decreases rows.len() - k,
        {
            let row = &rows[k];
            items.push(Book::new(row.0, row.1, row.2, row.3));
            k += 1;
        }
        BookList { items, selected: None }
    }

    pub fn len(&self) -> (n: usize)
        ensures
            n == self@.items.len(),
    {
        self.items.len()
    }

    pub fn is_empty(&self) -> (b: bool)
        ensures
            b == (self@.items.len() == 0),
    {
        self.items.len() == 0
    }

    /// The entry at a position, if the list has that position.
    pub fn get(&self, index: usize) -> (book: Option<&Book>)
        ensures
            index < self@.items.len() ==> (book matches Some(b) && b@ == self@.items[index as int]),
            index >= self@.items.len() ==> book is None,
    {
        if index < self.items.len() {
            Some(&self.items[index])
        } else {
            None
        }
    }

    /// The selected position. It is always a position of the list.
    pub fn selected(&self) -> (cursor: Option<usize>)
        ensures
            cursor matches Some(i) ==> (self@.selected == Some(i as nat) && i < self@.items.len()),
            cursor is None ==> self@.selected is None,
            cursor_in_range(self@),
    {
        proof {
            use_type_invariant(self);
        }
        self.selected
    }

    /// The selected entry.
    pub fn selected_book(&self) -> (book: Option<&Book>)
        ensures
            cursor_in_range(self@),
            match self@.selected {
                Some(i) => (book matches Some(b) && b@ == self@.items[i as int]),
                None => book is None,
            },
    {
        proof {
            use_type_invariant(self);
        }
        match self.selected {
            Some(i) => Some(&self.items[i]),
            None => None,
        }
    }

    /// Puts the cursor on the first entry, or on nothing in an empty list.
    pub fn select_first(&mut self)
        ensures
            final(self)@.items == old(self)@.items,
            final(self)@.selected == first_of(old(self)@.items.len()),
            cursor_in_range(final(self)@),
    {
        if self.items.len() == 0 {
            self.selected = None;
        } else {
            self.selected = Some(0);
        }
    }

    /// Moves the cursor one entry down, stopping at the last.
    pub fn select_next(&mut self)
        ensures
            final(self)@.items == old(self)@.items,
            final(self)@.selected == next_of(old(self)@.selected, old(self)@.items.len()),
            cursor_in_range(final(self)@),
    {
        proof {
            use_type_invariant(&*self);
        }
        let len = self.items.len();
        if len == 0 {
            self.selected = None;
        } else {
            match self.selected {
                Some(i) => {
                    if i + 1 < len {
                        self.selected = Some(i + 1);
                    } else {
                        self.selected = Some(len - 1);
                    }
                },
                None => {
                    self.selected = Some(0);
                },
            }
        }
    }

    /// Moves the cursor one entry up, stopping at the first.
    pub fn select_previous(&mut self)
        ensures
            final(self)@.items == old(self)@.items,
            final(self)@.selected == previous_of(old(self)@.selected, old(self)@.items.len()),
            cursor_in_range(final(self)@),
    {
        proof {
            use_type_invariant(&*self);
        }
        let len = self.items.len();
        if len == 0 {
            self.selected = None;
        } else {
            match self.selected {
                Some(i) => {
                    if i == 0 {
                        self.selected = Some(0);
                    } else {
                        self.selected = Some(i - 1);
                    }
                },
                None => {
                    self.selected = Some(len - 1);
                },
            }
        }
    }

    /// The lines of the result list, one per entry, in order.
    pub fn labels(&self) -> (lines: Vec<String>)
        ensures
            lines.len() == self@.items.len(),
            forall|i: int|
                0 <= i < lines.len() ==> #[trigger] lines[i]@ == crate::book::label_text(
                    self@.items[i],
                ),
    {
        let mut lines: Vec<String> = Vec::new();
        let mut k: usize = 0;
        while k < self.items.len()
            invariant
                k <= self.items.len(),
                lines.len() == k,
                forall|i: int|
                    0 <= i < k ==> #[trigger] lines[i]@ == crate::book::label_text(self.items[i]@),
            decreases self.items.len() - k,
        {
            lines.push(self.items[k].label());
            k += 1;
        }
        lines
    }
}

} // verus!
