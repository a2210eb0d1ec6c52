//! Application state and keyboard-event dispatch.
//!
//! `App` aggregates the result sequence, the selection set, the pagination
//! cursor, the active screen, the query buffer, and the exit flag. Exactly
//! one key-press event is dispatched per call of [`App::handle_key`], a pure
//! transition on the state; the search call it may request, the render sink,
//! and the input source all live outside the library.

use crate::pager::{
    last_page, lemma_absolute_index_in_bounds, lemma_page_in_range_nonempty, spec_last_page,
    spec_visible_count, spec_wrap_down, spec_wrap_up, visible_count,
};
use crate::search::Repo;
use crate::selection::{contains_id, id_set, seq_has_id, spec_toggled, toggle_id, unique_ids};
use vstd::prelude::*;

verus! {

/// The mutually exclusive screens of the interface; exactly one is active.
#[derive(Clone, Copy, Debug, PartialEq, Eq, Structural)]
pub enum CurrentScreen {
    Search,
    SearchResults,
    Help,
}

/// One discrete key-press, already stripped of everything the dispatcher
/// ignores (key releases, modifiers). Unrecognized keys arrive as `Other`.
#[derive(Clone, Copy, Debug, PartialEq, Eq, Structural)]
pub enum Key {
    Char(char),
    Backspace,
    Enter,
    Esc,
    Left,
    Right,
    Up,
    Down,
    Tab,
    Other,
}

/// The whole application state. The dispatcher is its only writer; the
/// render sink only reads it.
pub struct App {
    pub repos: Vec<Repo>,
    pub search_term: String,
    pub page_size: usize,
    pub total_pages: usize,
    pub current_page: usize,
    pub current_screen: CurrentScreen,
    pub current_index: usize,
    pub exit: bool,
    pub selected: Vec<String>,
    pub status_message: Option<String>,
}

/// Does this key set the exit flag on this screen? `q` exits everywhere;
/// Escape exits only from the search screen.
pub open spec fn spec_exits(screen: CurrentScreen, key: Key) -> bool {
    match screen {
        CurrentScreen::Search => key == Key::Char('q') || key == Key::Esc,
        CurrentScreen::SearchResults => key == Key::Char('q'),
        CurrentScreen::Help => key == Key::Char('q'),
    }
}

/// The screen after dispatching `key` on `screen`. `?` opens help from any
/// screen; Escape leaves the results screen for the search screen. Entering
/// the results screen itself happens only when a search completes.
pub open spec fn spec_next_screen(screen: CurrentScreen, key: Key) -> CurrentScreen {
    match screen {
        CurrentScreen::Search => if key == Key::Char('?') {
            CurrentScreen::Help
        } else {
            screen
        },
        CurrentScreen::SearchResults => if key == Key::Char('?') {
            CurrentScreen::Help
        } else if key == Key::Esc {
            CurrentScreen::Search
        } else {
            screen
        },
        CurrentScreen::Help => screen,
    }
}

/// Does this key, on this screen, fire the search provider?
pub open spec fn spec_starts_search(screen: CurrentScreen, key: Key) -> bool {
    screen == CurrentScreen::Search && key == Key::Enter
}

/// The query buffer after dispatching `key` on `screen`: on the search
/// screen a printable character is appended and Backspace drops the last
/// character of a non-empty buffer; everything else leaves the buffer alone.
pub open spec fn spec_next_query(screen: CurrentScreen, q: Seq<char>, key: Key) -> Seq<char> {
    if screen == CurrentScreen::Search {
        match key {
            Key::Char(c) => if c == 'q' || c == '?' {
                q
            } else {
                q.push(c)
            },
            Key::Backspace => if q.len() > 0 {
                q.drop_last()
            } else {
                q
            },
            _ => q,
        }
    } else {
        q
    }
}

/// Keys that page backward on the results screen.
pub open spec fn spec_page_back_key(key: Key) -> bool {
    key == Key::Left || key == Key::Char('h') || key == Key::Char('a')
}

/// Keys that page forward on the results screen.
pub open spec fn spec_page_forward_key(key: Key) -> bool {
    key == Key::Right || key == Key::Char('l') || key == Key::Char('d')
}

/// Keys that move the cursor up on the results screen.
pub open spec fn spec_up_key(key: Key) -> bool {
    key == Key::Up || key == Key::Char('k') || key == Key::Char('w')
}

/// Keys that move the cursor down on the results screen.
pub open spec fn spec_down_key(key: Key) -> bool {
    key == Key::Down || key == Key::Char('j') || key == Key::Char('s')
}

/// The pagination cursor `(current_page, current_index)` after dispatching
/// `key`: paging clamps into the live page range and resets the index when
/// the page actually changed; vertical moves wrap inside the visible slice.
pub open spec fn spec_next_cursor(pre: App, key: Key) -> (nat, nat) {
    if pre.current_screen == CurrentScreen::SearchResults {
        if spec_page_back_key(key) {
            if pre.current_page > 0 {
                ((pre.current_page - 1) as nat, 0nat)
            } else {
                (pre.current_page as nat, pre.current_index as nat)
            }
        } else if spec_page_forward_key(key) {
            if pre.current_page < pre.total_pages {
                ((pre.current_page + 1) as nat, 0nat)
            } else {
                (pre.current_page as nat, pre.current_index as nat)
            }
        } else if spec_up_key(key) {
            (
                pre.current_page as nat,
                spec_wrap_up(
                    pre.current_index as nat,
                    spec_visible_count(pre.total(), pre.page_size as nat, pre.current_page as nat),
                ),
            )
        } else if spec_down_key(key) {
            (
                pre.current_page as nat,
                spec_wrap_down(
                    pre.current_index as nat,
                    spec_visible_count(pre.total(), pre.page_size as nat, pre.current_page as nat),
                ),
            )
        } else {
            (pre.current_page as nat, pre.current_index as nat)
        }
    } else {
        (pre.current_page as nat, pre.current_index as nat)
    }
}

/// Does this key, in this state, toggle the selection? Only Tab on the
/// results screen, and only while there is a result to toggle.
pub open spec fn spec_toggles(pre: App, key: Key) -> bool {
    pre.current_screen == CurrentScreen::SearchResults && key == Key::Tab && pre.total() > 0
}

/// All fields equal except possibly the pagination cursor.
pub open spec fn same_except_cursor(pre: App, post: App) -> bool {
    &&& post.repos == pre.repos
    &&& post.search_term == pre.search_term
    &&& post.page_size == pre.page_size
    &&& post.total_pages == pre.total_pages
    &&& post.current_screen == pre.current_screen
    &&& post.exit == pre.exit
    &&& post.selected == pre.selected
    &&& post.status_message == pre.status_message
}

/// All fields equal except possibly the selection set.
pub open spec fn same_except_selection(pre: App, post: App) -> bool {
    &&& post.repos == pre.repos
    &&& post.search_term == pre.search_term
    &&& post.page_size == pre.page_size
    &&& post.total_pages == pre.total_pages
    &&& post.current_screen == pre.current_screen
    &&& post.current_page == pre.current_page
    &&& post.current_index == pre.current_index
    &&& post.exit == pre.exit
    &&& post.status_message == pre.status_message
}

/// Selection identity survives a re-search: membership is keyed by
/// identifier alone, so any step that carries the selection over unchanged —
/// as [`App::apply_search_results`] does when it replaces the result
/// sequence — leaves every identifier exactly as selected as it was.
pub proof fn lemma_selection_survives_research(pre: App, post: App, id: Seq<char>)
    requires
        post.selected == pre.selected,
    ensures
        post.has_selected(id) == pre.has_selected(id),
{
}

/// Relies on `String::push`: appends the given character to the end of the
/// string.
#[verifier::external_body]
fn push_char(s: &mut String, c: char)
    ensures
        final(s)@ == old(s)@.push(c),
{
    s.push(c)
}

/// Relies on `String::pop`: removes and returns the last character, or
/// returns `None` and leaves the string alone when it is empty.
#[verifier::external_body]
fn pop_char(s: &mut String) -> (r: Option<char>)
    ensures
        old(s)@.len() == 0 ==> r is None && final(s)@ == old(s)@,
        old(s)@.len() > 0 ==> r == Some(old(s)@.last()) && final(s)@ == old(s)@.drop_last(),
{
    s.pop()
}

impl App {
    /// Length of the result sequence.
    pub open spec fn total(self) -> nat {
        self.repos@.len()
    }

    /// Is the identifier `id` in the selection set?
    pub open spec fn has_selected(self, id: Seq<char>) -> bool {
        seq_has_id(self.selected@, id)
    }

    /// The selection set as a mathematical set of identifiers.
    pub open spec fn selected_ids(self) -> Set<Seq<char>> {
        id_set(self.selected@)
    }

    /// Position of the cursor item in the whole result sequence.
    pub open spec fn abs_index(self) -> nat {
        (self.current_page * self.page_size + self.current_index) as nat
    }

    /// Identifier of the result under the cursor.
    pub open spec fn cursor_id(self) -> Seq<char>
        recommends
            self.abs_index() < self.total(),
    {
        self.repos@[self.abs_index() as int].html_url@
    }

    /// Well-formedness, kept by every operation: the page size is positive,
    /// the page bound is computed from the live result sequence, the screen
    /// stands on an existing page, the cursor lies inside the visible slice
    /// (or at `0` on an empty page), and the selection holds no duplicates.
    pub open spec fn wf(self) -> bool {
        &&& self.page_size > 0
        &&& self.total_pages == spec_last_page(self.total(), self.page_size as nat)
        &&& self.current_page <= self.total_pages
        &&& ((self.current_index as nat) < spec_visible_count(
            self.total(),
            self.page_size as nat,
            self.current_page as nat,
        ) || self.current_index == 0)
        &&& unique_ids(self.selected@)
    }

    /// The initial state: the search screen with an empty query, an empty
    /// selection, a page size of ten, and a small built-in result sequence
    /// shown until the first search replaces it.
    pub fn new() -> (r: App)
        ensures
            r.wf(),
            r.current_screen == CurrentScreen::Search,
            r.search_term@ == Seq::<char>::empty(),
            r.page_size == 10,
            r.current_page == 0,
            r.current_index == 0,
            r.total_pages == spec_last_page(r.total(), 10),
            !r.exit,
            r.selected@ == Seq::<String>::empty(),
            r.status_message is None,
            r.repos@.len() == 3,
            r.repos@[0].html_url@ == "https://github.com/rust-lang/rust"@,
            r.repos@[1].html_url@ == "https://github.com/bevyengine/bevy"@,
            r.repos@[2].html_url@ == "https://github.com/flippinberger/repo-depot"@,
            r.repos@[0].name@ == "Rust"@,
            r.repos@[1].name@ == "Bevy"@,
            r.repos@[2].name@ == "Repo Depot"@,
            forall|i: int|
                0 <= i < 3 ==> #[trigger] r.repos@[i].stargazers_count == 100 && r.repos@[
                    i
                ].forks_count == 100,
            (r.repos@[0].description matches Some(d) && d@
                == "A safe, concurrent, practical language"@),
            (r.repos@[1].description matches Some(d) && d@ == "A data-oriented game engine"@),
            (r.repos@[2].description matches Some(d) && d@
                == "A terminal UI for searching and selecting GitHub repositories"@),
    {
        let mut repos: Vec<Repo> = Vec::new();
        repos.push(
            Repo {
                html_url: "https://github.com/rust-lang/rust".to_owned(),
                name: "Rust".to_owned(),
                description: Some("A safe, concurrent, practical language".to_owned()),
                stargazers_count: 100,
                forks_count: 100,
            },
        );
        repos.push(
            Repo {
                html_url: "https://github.com/bevyengine/bevy".to_owned(),
                name: "Bevy".to_owned(),
                description: Some("A data-oriented game engine".to_owned()),
                stargazers_count: 100,
                forks_count: 100,
            },
        );
        repos.push(
            Repo {
                html_url: "https://github.com/flippinberger/repo-depot".to_owned(),
                name: "Repo Depot".to_owned(),
                description: Some(
                    "A terminal UI for searching and selecting GitHub repositories".to_owned(),
                ),
                stargazers_count: 100,
                forks_count: 100,
            },
        );
        let tp: usize = last_page(repos.len(), 10);
        App {
            repos,
            search_term: String::new(),
            page_size: 10,
            total_pages: tp,
            current_page: 0,
            current_screen: CurrentScreen::Search,
            current_index: 0,
            exit: false,
            selected: Vec::new(),
            status_message: None,
        }
    }

    /// Set the terminating flag; the outer loop stops before its next
    /// iteration, whatever screen is active.
    pub fn exit(&mut self)
        ensures
            *final(self) == (App { exit: true, ..*old(self) }),
    {
        self.exit = true;
    }

    /// Switch to the help screen.
    pub fn help(&mut self)
        ensures
            *final(self) == (App { current_screen: CurrentScreen::Help, ..*old(self) }),
    {
        self.current_screen = CurrentScreen::Help;
    }

    /// Page backward: one page down, floored at the first page; the cursor
    /// index resets exactly when the page actually changed.
    pub fn page_back(&mut self)
        requires
            old(self).wf(),
        ensures
            final(self).wf(),
            same_except_cursor(*old(self), *final(self)),
            old(self).current_page > 0 ==> final(self).current_page == old(self).current_page - 1
                && final(self).current_index == 0,
            old(self).current_page == 0 ==> final(self).current_page == old(self).current_page
                && final(self).current_index == old(self).current_index,
    {
        if self.current_page > 0 {
            self.current_page -= 1;
            self.current_index = 0;
        }
    }

    /// Page forward: one page up, clamped at the last page computed from the
    /// live result sequence; the cursor index resets exactly when the page
    /// actually changed.
    pub fn page_forward(&mut self)
        requires
            old(self).wf(),
        ensures
            final(self).wf(),
            same_except_cursor(*old(self), *final(self)),
            old(self).current_page < old(self).total_pages ==> final(self).current_page == old(
                self,
            ).current_page + 1 && final(self).current_index == 0,
            old(self).current_page >= old(self).total_pages ==> final(self).current_page == old(
                self,
            ).current_page && final(self).current_index == old(self).current_index,
    {
        if self.current_page < self.total_pages {
            self.current_page += 1;
            self.current_index = 0;
        }
    }

    /// Move the cursor one row up inside the current page, wrapping from the
    /// top row to the bottom one; a no-op on an empty page.
    pub fn move_up(&mut self)
        requires
            old(self).wf(),
        ensures
            final(self).wf(),
            same_except_cursor(*old(self), *final(self)),
            final(self).current_page == old(self).current_page,
            final(self).current_index == spec_wrap_up(
                old(self).current_index as nat,
                spec_visible_count(
                    old(self).total(),
                    old(self).page_size as nat,
                    old(self).current_page as nat,
                ),
            ),
    {
        let end: usize = visible_count(self.repos.len(), self.page_size, self.current_page);
        if end > 0 {
            if self.current_index > 0 {
                self.current_index -= 1;
            } else {
                self.current_index = end - 1;
            }
        }
    }

    /// Move the cursor one row down inside the current page, wrapping from
    /// the bottom row to the top one; a no-op on an empty page.
    pub fn move_down(&mut self)
        requires
            old(self).wf(),
        ensures
            final(self).wf(),
            same_except_cursor(*old(self), *final(self)),
            final(self).current_page == old(self).current_page,
            final(self).current_index == spec_wrap_down(
                old(self).current_index as nat,
                spec_visible_count(
                    old(self).total(),
                    old(self).page_size as nat,
                    old(self).current_page as nat,
                ),
            ),
    {
        let end: usize = visible_count(self.repos.len(), self.page_size, self.current_page);
        if end > 0 {
            if self.current_index + 1 < end {
                self.current_index += 1;
            } else {
                self.current_index = 0;
            }
        }
    }

    /// Toggle the selection of the result under the cursor: marked becomes
    /// unmarked and unmarked becomes marked; no other identifier's
    /// membership moves.
    pub fn toggle_current(&mut self)
        requires
            old(self).wf(),
            old(self).total() > 0,
        ensures
            final(self).wf(),
            same_except_selection(*old(self), *final(self)),
            forall|x: Seq<char>|
                final(self).has_selected(x) == (if x == old(self).cursor_id() {
                    !old(self).has_selected(x)
                } else {
                    old(self).has_selected(x)
                }),
            final(self).selected_ids() == spec_toggled(
                old(self).selected_ids(),
                old(self).cursor_id(),
            ),
    {
        let total: usize = self.repos.len();
        proof {
            lemma_page_in_range_nonempty(
                self.total(),
                self.page_size as nat,
                self.current_page as nat,
            );
            lemma_absolute_index_in_bounds(
                self.total(),
                self.page_size as nat,
                self.current_page as nat,
                self.current_index as nat,
            );
            assert(self.current_index + self.current_page * self.page_size < total);
        }
        let index: usize = self.current_index + self.current_page * self.page_size;
        let url = self.repos[index].html_url.clone();
        toggle_id(&mut self.selected, url);
    }

    /// Membership test used to mark selected rows.
    pub fn is_selected(&self, id: &String) -> (r: bool)
        ensures
            r == self.has_selected(id@),
    {
        contains_id(&self.selected, id)
    }

    /// A search completed: the result sequence is replaced wholesale, the
    /// page bound is recomputed from its live length, the cursor resets, the
    /// results screen opens, and any error message is cleared. The selection
    /// set is left exactly as it was.
    pub fn apply_search_results(&mut self, results: Vec<Repo>)
        requires
            old(self).wf(),
        ensures
            final(self).wf(),
            final(self).repos == results,
            final(self).current_screen == CurrentScreen::SearchResults,
            final(self).current_page == 0,
            final(self).current_index == 0,
            final(self).total_pages == spec_last_page(results@.len(), old(self).page_size as nat),
            final(self).page_size == old(self).page_size,
            final(self).search_term == old(self).search_term,
            final(self).exit == old(self).exit,
            final(self).selected == old(self).selected,
            final(self).status_message is None,
            forall|x: Seq<char>| final(self).has_selected(x) == old(self).has_selected(x),
    {
        self.repos = results;
        self.total_pages = last_page(self.repos.len(), self.page_size);
        self.current_page = 0;
        self.current_index = 0;
        self.current_screen = CurrentScreen::SearchResults;
        self.status_message = None;
    }

    /// A search failed: the state is left untouched but for a status message
    /// that surfaces the failure; the screen stays on the search screen and
    /// the prior results and selection survive.
    pub fn search_failed(&mut self, message: String)
        ensures
            *final(self) == (App { status_message: Some(message), ..*old(self) }),
    {
        self.status_message = Some(message);
    }

    /// Dispatch one key-press event. Returns whether the caller must now
    /// fire the search provider with the current query buffer and report the
    /// outcome through [`App::apply_search_results`] or
    /// [`App::search_failed`]; until then no further event may be
    /// dispatched. Every other effect of the key is applied here, and every
    /// unrecognized key is a no-op.
    pub fn handle_key(&mut self, key: Key) -> (starts_search: bool)
        requires
            old(self).wf(),
        ensures
            final(self).wf(),
            starts_search == spec_starts_search(old(self).current_screen, key),
            final(self).repos == old(self).repos,
            final(self).page_size == old(self).page_size,
            final(self).total_pages == old(self).total_pages,
            final(self).status_message == old(self).status_message,
            final(self).current_screen == spec_next_screen(old(self).current_screen, key),
            final(self).exit == (old(self).exit || spec_exits(old(self).current_screen, key)),
            final(self).search_term@ == spec_next_query(
                old(self).current_screen,
                old(self).search_term@,
                key,
            ),
            final(self).current_page == spec_next_cursor(*old(self), key).0,
            final(self).current_index == spec_next_cursor(*old(self), key).1,
            !spec_toggles(*old(self), key) ==> final(self).selected == old(self).selected,
            forall|x: Seq<char>|
                final(self).has_selected(x) == (if spec_toggles(*old(self), key) && x == old(
                    self,
                ).cursor_id() {
                    !old(self).has_selected(x)
                } else {
                    old(self).has_selected(x)
                }),
            spec_toggles(*old(self), key) ==> final(self).selected_ids() == spec_toggled(
                old(self).selected_ids(),
                old(self).cursor_id(),
            ),
    {
        match self.current_screen {
            CurrentScreen::Search => match key {
                Key::Char(c) => {
                    if c == 'q' {
                        self.exit();
                    } else if c == '?' {
                        self.help();
                    } else {
                        push_char(&mut self.search_term, c);
                    }
                    false
                },
                Key::Esc => {
                    self.exit();
                    false
                },
                Key::Backspace => {
                    let _ = pop_char(&mut self.search_term);
                    false
                },
                Key::Enter => true,
                _ => false,
            },
            CurrentScreen::SearchResults => {
                match key {
                    Key::Char(c) => {
                        if c == 'q' {
                            self.exit();
                        } else if c == '?' {
                            self.help();
                        } else if c == 'h' || c == 'a' {
                            self.page_back();
                        } else if c == 'l' || c == 'd' {
                            self.page_forward();
                        } else if c == 'k' || c == 'w' {
                            self.move_up();
                        } else if c == 'j' || c == 's' {
                            self.move_down();
                        }
                    },
                    Key::Esc => {
                        self.current_screen = CurrentScreen::Search;
                    },
                    Key::Left => self.page_back(),
                    Key::Right => self.page_forward(),
                    Key::Up => self.move_up(),
                    Key::Down => self.move_down(),
                    Key::Tab => {
                        if self.repos.len() > 0 {
                            self.toggle_current();
                        }
                    },
                    _ => {},
                }
                false
            },
            CurrentScreen::Help => {
                match key {
                    Key::Char(c) => {
                        if c == 'q' {
                            self.exit();
                        } else if c == '?' {
                            self.help();
                        }
                    },
                    _ => {},
                }
                false
            },
        }
    }
}

} // verus!
