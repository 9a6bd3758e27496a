//! What holds of the session whatever the keys, proved over its
//! mathematical state.

use vstd::prelude::*;
use crate::app::{after_key, after_keys, after_search, after_take, initial, valid, AppView};
use crate::book::BookView;
use crate::fetch::{message_of, shortest, zipped, BookInfoView, FetchErrorView};
use crate::fetch::lemma_message_not_empty;
use crate::keys::{mode_after, next_mode, InputMode, Key};
use crate::screen::{footer_of, screen_of};

verus! {

/// The same key, `n` times.
pub open spec fn repeated(key: Key, n: nat) -> Seq<Key> {
    Seq::new(n, |i: int| key)
}

/// The smaller of two numbers.
pub open spec fn smaller(a: int, b: int) -> int {
    if a <= b {
        a
    } else {
        b
    }
}

/// A new session is in a valid state, and keys, search outcomes and frames
/// lead from valid states to valid states: the selection never leaves the
/// list.
pub proof fn lemma_valid_is_kept(s: AppView, key: Key, outcome: Result<Seq<BookView>, FetchErrorView>)
    requires
        valid(s),
    ensures
        valid(initial()),
        valid(after_key(s, key)),
        valid(after_search(s, outcome)),
        valid(after_take(s)),
{
}

/// A run of keys leads from a valid state to a valid state.
pub proof fn lemma_valid_after_keys(s: AppView, keys: Seq<Key>)
    requires
        valid(s),
    ensures
        valid(after_keys(s, keys)),
    decreases keys.len(),
{
    if keys.len() > 0 {
        lemma_valid_after_keys(s, keys.drop_last());
        lemma_valid_is_kept(after_keys(s, keys.drop_last()), keys.last(), Ok(Seq::empty()));
    }
}

/// The mode after a key depends on the mode before it and on the key, and on
/// nothing else in the state.
pub proof fn lemma_mode_after_key(s: AppView, key: Key)
    ensures
        after_key(s, key).mode == next_mode(s.mode, key),
{
}

/// The mode after any run of keys is the one that the transition table gives
/// for the mode before and the keys: two sessions in the same mode are in the
/// same mode after the same keys, whatever else they hold.
pub proof fn lemma_mode_after_keys(s: AppView, t: AppView, keys: Seq<Key>)
    ensures
        after_keys(s, keys).mode == mode_after(s.mode, keys),
        s.mode == t.mode ==> after_keys(s, keys).mode == after_keys(t, keys).mode,
    decreases keys.len(),
{
    if keys.len() > 0 {
        lemma_mode_after_keys(s, t, keys.drop_last());
    }
}

/// Drawing a frame changes nothing but the pending status, which it clears:
/// of two frames drawn one after the other, the second shows no status, and
/// the state after the second is the state after the first.
pub proof fn lemma_render_twice(s: AppView)
    ensures
        after_take(s).mode == s.mode,
        after_take(s).query == s.query,
        after_take(s).results == s.results,
        after_take(s).selection == s.selection,
        after_take(s).last_error == s.last_error,
        after_take(s).status is None,
        screen_of(after_take(s)).footer == footer_of(None, s.mode),
        after_take(after_take(s)) == after_take(s),
{
}

/// While the list is browsed, `n` presses of "down" move the selection `n`
/// entries down but not past the last entry, and change nothing else.
pub proof fn lemma_repeated_down(s: AppView, n: nat)
    requires
        valid(s),
        s.mode == InputMode::Viewing,
        s.results.len() > 0,
    ensures
        after_keys(s, repeated(Key::Down, n)) == (AppView {
            selection: Some(smaller((s.selection->0 + n) as int, s.results.len() - 1) as nat),
            ..s
        }),
        n >= s.results.len() - 1 ==> after_keys(s, repeated(Key::Down, n)).selection == Some(
            (s.results.len() - 1) as nat,
        ),
    decreases n,
{
    if n > 0 {
        lemma_repeated_down(s, (n - 1) as nat);
        assert(repeated(Key::Down, n).drop_last() =~= repeated(Key::Down, (n - 1) as nat));
        assert(repeated(Key::Down, n).last() == Key::Down);
    }
}

/// While the list is browsed, `n` presses of "up" move the selection `n`
/// entries up but not past the first entry, and change nothing else.
pub proof fn lemma_repeated_up(s: AppView, n: nat)
    requires
        valid(s),
        s.mode == InputMode::Viewing,
        s.results.len() > 0,
    ensures
        after_keys(s, repeated(Key::Up, n)) == (AppView {
            selection: Some(
                if s.selection->0 >= n {
                    (s.selection->0 - n) as nat
                } else {
                    0nat
                },
            ),
            ..s
        }),
        n >= s.results.len() - 1 ==> after_keys(s, repeated(Key::Up, n)).selection == Some(0nat),
    decreases n,
{
    if n > 0 {
        lemma_repeated_up(s, (n - 1) as nat);
        assert(repeated(Key::Up, n).drop_last() =~= repeated(Key::Up, (n - 1) as nat));
        assert(repeated(Key::Up, n).last() == Key::Up);
    }
}

/// The records made of four sequences are as many as the shortest sequence
/// has entries, and each takes its four fields from its own position.
pub proof fn lemma_zip_by_position(info: BookInfoView)
    ensures
        zipped(info).len() == shortest(info),
        zipped(info).len() <= info.titles.len(),
        zipped(info).len() <= info.authors.len(),
        zipped(info).len() <= info.urls.len(),
        zipped(info).len() <= info.thumbnails.len(),
        zipped(info).len() == info.titles.len() || zipped(info).len() == info.authors.len()
            || zipped(info).len() == info.urls.len() || zipped(info).len()
            == info.thumbnails.len(),
        forall|i: int|
            0 <= i < zipped(info).len() ==> #[trigger] zipped(info)[i] == (BookView {
                title: info.titles[i],
                author: info.authors[i],
                url: info.urls[i],
                thumbnail: info.thumbnails[i],
            }),
{
}

/// A search that fails changes nothing but the error message, which is then
/// there and not empty.
pub proof fn lemma_failed_search(s: AppView, e: FetchErrorView)
    ensures
        after_search(s, Err(e)) == (AppView { last_error: Some(message_of(e)), ..s }),
        after_search(s, Err(e)).last_error->0.len() > 0,
{
    lemma_message_not_empty(e);
}

/// A search that succeeds replaces the list, clears the error message and
/// leaves the session browsing from the first record, or with nothing
/// selected where no record was found.
pub proof fn lemma_successful_search(s: AppView, books: Seq<BookView>)
    ensures
        after_search(s, Ok(books)).mode == InputMode::Viewing,
        after_search(s, Ok(books)).results == books,
        after_search(s, Ok(books)).last_error is None,
        after_search(s, Ok(books)).query == s.query,
        after_search(s, Ok(books)).status == s.status,
        books.len() == 0 ==> after_search(s, Ok(books)).selection is None,
        books.len() > 0 ==> after_search(s, Ok(books)).selection == Some(0nat),
{
}

} // verus!
