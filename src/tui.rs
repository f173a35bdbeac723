//! The interactive picker: a cursor over the ranked view, the query being
//! typed, and the decision that each keystroke leads to. Drawing the screen
//! and reading the keyboard are left to the caller, which hands each key to
//! [`App::handle_key`] and stops when it answers [`LoopState::Exiting`].
use crate::config::WorkOrPersonal;
use crate::matching::{find_matches_in_order, ranked_view};
use crate::repolist::{Repo, RepoList};
use crate::text::{pop_char, push_char};
use vstd::prelude::*;

verus! {

/// How far one page up or down moves the cursor.
pub const PAGE_STEP: usize = 10;

/// What the caller is asked to launch in the chosen repository.
#[derive(PartialEq, Eq, Structural, Clone, Copy, Debug)]
pub enum LaunchType {
    /// A shell whose working directory is the repository.
    LaunchShell,
    /// The editor, opened on the repository.
    LaunchCode,
}

/// The repository that was chosen and what to launch in it.
pub struct Launch {
    pub directory: String,
    pub launch_type: LaunchType,
}

/// The keys the picker tells apart; every other key is `Other`.
#[derive(PartialEq, Eq, Structural, Clone, Copy, Debug)]
pub enum Key {
    Esc,
    Left,
    Home,
    Right,
    End,
    Down,
    Tab,
    Up,
    BackTab,
    PageDown,
    PageUp,
    Insert,
    Enter,
    Char(char),
    Backspace,
    Other,
}

/// Whether the picker goes on, or stops with a launch request (`Some`) or
/// cancelled (`None`).
pub enum LoopState {
    Running,
    Exiting(Option<Launch>),
}

/// The cursor after moving one entry down a view of `len` entries,
/// wrapping from the last entry to the first.
pub open spec fn next_spec(sel: Option<usize>, len: nat) -> Option<usize> {
    if len == 0 {
        sel
    } else {
        match sel {
            Some(i) => if i + 1 >= len {
                Some(0usize)
            } else {
                Some((i + 1) as usize)
            },
            None => Some(0usize),
        }
    }
}

/// The cursor after moving one entry up a view of `len` entries,
/// wrapping from the first entry to the last.
pub open spec fn previous_spec(sel: Option<usize>, len: nat) -> Option<usize> {
    if len == 0 {
        sel
    } else {
        match sel {
            Some(i) => if i == 0 || i >= len {
                Some((len - 1) as usize)
            } else {
                Some((i - 1) as usize)
            },
            None => Some(0usize),
        }
    }
}

/// The cursor after a page down, stopping at the last entry.
pub open spec fn page_down_spec(sel: Option<usize>, len: nat) -> Option<usize> {
    if len == 0 {
        sel
    } else {
        match sel {
            Some(i) => if i + PAGE_STEP >= len {
                Some((len - 1) as usize)
            } else {
                Some((i + PAGE_STEP) as usize)
            },
            None => Some(0usize),
        }
    }
}

/// The cursor after a page up, stopping at the first entry.
pub open spec fn page_up_spec(sel: Option<usize>, len: nat) -> Option<usize> {
    if len == 0 {
        sel
    } else {
        match sel {
            Some(i) => if i < PAGE_STEP {
                Some(0usize)
            } else if i - PAGE_STEP >= len {
                Some((len - 1) as usize)
            } else {
                Some((i - PAGE_STEP) as usize)
            },
            None => Some(0usize),
        }
    }
}

/// The cursor after jumping to the last entry.
pub open spec fn end_spec(sel: Option<usize>, len: nat) -> Option<usize> {
    if len == 0 {
        sel
    } else {
        Some((len - 1) as usize)
    }
}

/// A cursor that points into a view of `len` entries, or at its start.
pub open spec fn cursor_in_view(sel: Option<usize>, len: nat) -> bool {
    match sel {
        Some(i) => i == 0 || i < len,
        None => true,
    }
}

/// The catalog together with the cursor over the current view.
pub struct StatefulList {
    pub selected: Option<usize>,
    pub repolist: RepoList,
}

impl StatefulList {
    /// A list over the catalog with the cursor on the first entry.
    pub fn with_items(repolist: RepoList) -> (r: StatefulList)
        ensures
            r.selected == Some(0usize),
            r.repolist == repolist,
    {
        StatefulList { selected: Some(0), repolist }
    }

    /// Moves the cursor one entry down a view of `len` entries, wrapping around.
    pub fn next(&mut self, len: usize)
        ensures
            final(self).selected == next_spec(old(self).selected, len as nat),
            final(self).repolist == old(self).repolist,
    {
        if len > 0 {
            let i = match self.selected {
                Some(i) => if i >= len - 1 {
                    0
                } else {
                    i + 1
                },
                None => 0,
            };
            self.selected = Some(i);
        }
    }

    /// Moves the cursor one entry up a view of `len` entries, wrapping around.
    pub fn previous(&mut self, len: usize)
        ensures
            final(self).selected == previous_spec(old(self).selected, len as nat),
            final(self).repolist == old(self).repolist,
    {
        if len > 0 {
            let i = match self.selected {
                Some(i) => if i == 0 || i >= len {
                    len - 1
                } else {
                    i - 1
                },
                None => 0,
            };
            self.selected = Some(i);
        }
    }

    /// Puts the cursor on the first entry.
    pub fn select_0(&mut self)
        ensures
            final(self).selected == Some(0usize),
            final(self).repolist == old(self).repolist,
    {
        self.selected = Some(0);
    }

    /// Moves the cursor a page down a view of `len` entries, stopping at the last.
    pub fn go_ten_down(&mut self, len: usize)
        ensures
            final(self).selected == page_down_spec(old(self).selected, len as nat),
            final(self).repolist == old(self).repolist,
    {
        if len > 0 {
            let i = match self.selected {
                Some(i) => if i >= len - 1 || len - 1 - i < PAGE_STEP {
                    len - 1
                } else {
                    i + PAGE_STEP
                },
                None => 0,
            };
            self.selected = Some(i);
        }
    }

    /// Moves the cursor a page up a view of `len` entries, stopping at the first.
    pub fn go_ten_up(&mut self, len: usize)
        ensures
            final(self).selected == page_up_spec(old(self).selected, len as nat),
            final(self).repolist == old(self).repolist,
    {
        if len > 0 {
            let i = match self.selected {
                Some(i) => if i < PAGE_STEP {
                    0
                } else if i - PAGE_STEP >= len {
                    len - 1
                } else {
                    i - PAGE_STEP
                },
                None => 0,
            };
            self.selected = Some(i);
        }
    }

    /// Puts the cursor on the last entry of a view of `len` entries.
    pub fn end(&mut self, len: usize)
        ensures
            final(self).selected == end_spec(old(self).selected, len as nat),
            final(self).repolist == old(self).repolist,
    {
        if len > 0 {
            self.selected = Some(len - 1);
        }
    }
}

/// The cursor after a key that leaves the query as it is, over a view of `len` entries.
pub open spec fn navigate(key: Key, sel: Option<usize>, len: nat) -> Option<usize> {
    match key {
        Key::Left | Key::Home => if len == 0 {
            sel
        } else {
            Some(0usize)
        },
        Key::Right | Key::End => end_spec(sel, len),
        Key::Down | Key::Tab => next_spec(sel, len),
        Key::Up | Key::BackTab => previous_spec(sel, len),
        Key::PageDown => page_down_spec(sel, len),
        Key::PageUp => page_up_spec(sel, len),
        _ => sel,
    }
}

/// The query after a key: a character is appended, backspace removes the
/// last character of a non-empty query.
pub open spec fn edited_query(key: Key, query: Seq<char>) -> Seq<char> {
    match key {
        Key::Char(c) => query.push(c),
        Key::Backspace => if query.len() > 0 {
            query.drop_last()
        } else {
            query
        },
        _ => query,
    }
}

/// Whether a key changes the query.
pub open spec fn changes_query(key: Key, query: Seq<char>) -> bool {
    key is Char || (key is Backspace && query.len() > 0)
}

/// The state of one picker session: the catalog with its cursor, the query
/// typed so far, and the profile the catalog is filtered to.
pub struct App {
    pub items: StatefulList,
    pub search_text: String,
    pub category: Option<WorkOrPersonal>,
}

impl App {
    /// The ranked view of the catalog for the current query and filter.
    pub open spec fn view(&self) -> Seq<(usize, i64)> {
        ranked_view(self.items.repolist.repos@, self.search_text@, self.category)
    }

    /// The catalog index of the highlighted entry, if the cursor points
    /// into the current view.
    pub open spec fn highlighted(&self) -> Option<usize> {
        match self.items.selected {
            Some(i) => if i < self.view().len() {
                Some(self.view()[i as int].0)
            } else {
                None
            },
            None => None,
        }
    }

    /// The cursor points into the current view, or at its start.
    pub open spec fn wf(&self) -> bool {
        cursor_in_view(self.items.selected, self.view().len())
    }

    /// Whether `r` is the outcome of committing with `kind`: the highlighted
    /// repository's location with `kind`, or cancelled when nothing is highlighted.
    pub open spec fn commits(&self, kind: LaunchType, r: LoopState) -> bool {
        match self.highlighted() {
            Some(c) => r matches LoopState::Exiting(Some(l)) && l.directory@
                == self.items.repolist.repos@[c as int].location@ && l.launch_type == kind,
            None => r matches LoopState::Exiting(None),
        }
    }

    /// A new session over the catalog, with an empty query and the cursor
    /// on the first entry.
    pub fn new(repolist: RepoList, category: Option<WorkOrPersonal>) -> (r: App)
        ensures
            r.items.repolist == repolist,
            r.items.selected == Some(0usize),
            r.search_text@.len() == 0,
            r.category == category,
            r.wf(),
    {
        App { items: StatefulList::with_items(repolist), search_text: String::new(), category }
    }

    /// Resolves the highlighted entry of the current view into a launch request.
    fn commit(&self, launch_type: LaunchType) -> (r: LoopState)
        ensures
            self.commits(launch_type, r),
    {
        let view = find_matches_in_order(
            &self.items.repolist,
            self.search_text.as_str(),
            self.category,
        );
        if let Some(index) = self.items.selected {
            if index < view.len() {
                let repo_index = view[index].0;
                let selected: &Repo = &self.items.repolist.repos[repo_index];
                return LoopState::Exiting(
                    Some(Launch { directory: selected.location.clone(), launch_type }),
                );
            }
        }
        LoopState::Exiting(None)
    }

    /// Applies one keystroke. Escape cancels; Enter and Insert commit the
    /// highlighted entry with a shell or the editor (cancelled when nothing is
    /// highlighted); a key that changes the query puts the cursor back on the
    /// first entry; the navigation keys move the cursor over the current view.
    pub fn handle_key(&mut self, key: Key) -> (r: LoopState)
        ensures
            final(self).items.repolist == old(self).items.repolist,
            final(self).category == old(self).category,
            final(self).search_text@ == edited_query(key, old(self).search_text@),
            changes_query(key, old(self).search_text@) ==> final(self).items.selected == Some(
                0usize,
            ),
            !changes_query(key, old(self).search_text@) ==> final(self).items.selected
                == navigate(key, old(self).items.selected, old(self).view().len()),
            key is Esc ==> r matches LoopState::Exiting(None),
            key is Enter ==> old(self).commits(LaunchType::LaunchShell, r),
            key is Insert ==> old(self).commits(LaunchType::LaunchCode, r),
            (key is Enter || key is Insert) && old(self).view().len() == 0 ==> r matches LoopState::Exiting(
                None,
            ),
            !(key is Esc || key is Enter || key is Insert) ==> r is Running,
            old(self).wf() ==> final(self).wf(),
    {
        match key {
            Key::Esc => {
                return LoopState::Exiting(None);
            },
            Key::Enter => {
                return self.commit(LaunchType::LaunchShell);
            },
            Key::Insert => {
                return self.commit(LaunchType::LaunchCode);
            },
            Key::Char(a) => {
                push_char(&mut self.search_text, a);
                self.items.select_0();
                return LoopState::Running;
            },
            Key::Backspace => {
                if let Some(_) = pop_char(&mut self.search_text) {
                    self.items.select_0();
                }
                return LoopState::Running;
            },
            Key::Other => {
                return LoopState::Running;
            },
            _ => {},
        }
        let view = find_matches_in_order(
            &self.items.repolist,
            self.search_text.as_str(),
            self.category,
        );
        let len = view.len();
        match key {
            Key::Left | Key::Home => if len > 0 {
                self.items.select_0()
            },
            Key::Right | Key::End => self.items.end(len),
            Key::Down | Key::Tab => self.items.next(len),
            Key::Up | Key::BackTab => self.items.previous(len),
            Key::PageDown => self.items.go_ten_down(len),
            _ => self.items.go_ten_up(len),
        }
        LoopState::Running
    }
}

} // verus!
