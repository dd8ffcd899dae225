//! The application state: the snippet store with its pool of freed
//! identifiers, the input mode, the text buffer, the filtered list and the
//! snippet that is being edited.

use crate::list::StatefulList;
use crate::search::views_of;
use crate::snippet::{CodeSnippet, SnippetView};
use crate::store::{
    consistent, first_position, lemma_create_keeps_well_formed, lemma_first_position,
    lemma_first_position_is, lemma_insert_keeps_consistent, lemma_remove_keeps_consistent,
    lemma_remove_keeps_well_formed, next_idx_of, pool_after_issue, well_formed,
};
use crate::text::texts_of;
use std::collections::VecDeque;
use vstd::prelude::*;

verus! {

/// The field of a new snippet that the keys go to.
#[derive(Clone, Copy, Debug, PartialEq, Eq, Structural)]
pub enum NewSnippetMode {
    TypeName,
    TypeTags,
    TypeCode,
}

/// What the keys mean at the moment.
#[derive(Clone, Copy, Debug, PartialEq, Eq, Structural)]
pub enum InputMode {
    Normal,
    Search,
    NewSnippet(NewSnippetMode),
    ConfirmDelete(usize),
}

impl Default for InputMode {
    fn default() -> (mode: InputMode)
        ensures
            mode == InputMode::Search,
    {
        InputMode::Search
    }
}

/// Why the store could not do what was asked.
#[derive(Clone, Copy, Debug, PartialEq, Eq, Structural)]
pub enum StoreError {
    /// No live snippet has the identifier.
    NotFound,
}

/// The identifiers of the snippets, in their order.
pub open spec fn idxs_of(snippets: Seq<SnippetView>) -> Seq<usize> {
    Seq::new(snippets.len(), |i: int| snippets[i].idx)
}

/// The whole state of the application.
pub struct App {
    /// The text buffer: the search query, or, while a snippet is edited,
    /// its tags with a space between them.
    pub input: String,
    /// The mode that is active.
    pub input_mode: InputMode,
    /// The live snippets, in the order in which they were inserted.
    pub snippets: Vec<CodeSnippet>,
    /// Identifiers freed by deletion, oldest first.
    pub open_idxs: VecDeque<usize>,
    /// The snippets that the list shows, with its cursor.
    pub found_snippets: StatefulList<CodeSnippet>,
    /// The draft of the snippet that is being made or edited.
    pub current_snippet: Option<CodeSnippet>,
}

/// The application state as plain mathematical values.
pub struct AppView {
    pub input: Seq<char>,
    pub mode: InputMode,
    pub snippets: Seq<SnippetView>,
    /// The freed identifiers, oldest first.
    pub pool: Seq<usize>,
    /// What the list shows.
    pub found: Seq<SnippetView>,
    pub cursor: Option<usize>,
    /// The snippet that is being edited.
    pub draft: Option<SnippetView>,
}

impl View for App {
    type V = AppView;

    open spec fn view(&self) -> AppView {
        AppView {
            input: self.input@,
            mode: self.input_mode,
            snippets: views_of(self.snippets@),
            pool: self.open_idxs@,
            found: views_of(self.found_snippets.items@),
            cursor: self.found_snippets.state@,
            draft: match self.current_snippet {
                Some(snippet) => Some(snippet@),
                None => None,
            },
        }
    }
}

impl App {
    /// The identifiers of the live snippets.
    pub open spec fn live_idxs(&self) -> Seq<usize> {
        idxs_of(views_of(self.snippets@))
    }

    /// No live identifier occurs twice, and none is in the pool.
    pub open spec fn store_consistent(&self) -> bool {
        consistent(self.live_idxs(), self.open_idxs@)
    }

    /// Everything but the store is the same in both states.
    pub open spec fn same_session(&self, other: &App) -> bool {
        &&& self.input == other.input
        &&& self.input_mode == other.input_mode
        &&& self.found_snippets == other.found_snippets
        &&& self.current_snippet == other.current_snippet
    }

    /// Peeks at the identifier that the next new snippet will get: what
    /// `return_next_idx` would return. Nothing changes.
    pub fn get_next_idx(&self) -> (idx: usize)
        ensures
            idx == next_idx_of(self.live_idxs(), self.open_idxs@),
    {
        if self.open_idxs.len() > 0 {
            self.open_idxs[0]
        } else {
            self.snippets.len()
        }
    }

    /// Assigns the identifier for a new snippet: the oldest of the pool,
    /// which leaves the pool, or the number of live snippets where the
    /// pool is empty. It is called once for each new snippet. In a
    /// well-formed store the identifier is fresh: neither live nor left in
    /// the pool.
    pub fn return_next_idx(&mut self) -> (idx: usize)
        ensures
            idx == next_idx_of(old(self).live_idxs(), old(self).open_idxs@),
            final(self).open_idxs@ == pool_after_issue(old(self).open_idxs@),
            final(self).snippets == old(self).snippets,
            final(self).same_session(old(self)),
            well_formed(old(self).live_idxs(), old(self).open_idxs@) ==> {
                &&& !old(self).live_idxs().contains(idx)
                &&& !final(self).open_idxs@.contains(idx)
            },
    {
        let count = self.snippets.len();
        proof {
            if well_formed(self.live_idxs(), self.open_idxs@) {
                lemma_create_keeps_well_formed(self.live_idxs(), self.open_idxs@);
            }
        }
        match self.open_idxs.pop_front() {
            Some(idx) => {
                idx
            },
            None => count,
        }
    }

    /// Whether a live snippet has the identifier.
    pub fn has_snippet_with_idx(&self, snippet_idx: usize) -> (found: bool)
        ensures
            found == self.live_idxs().contains(snippet_idx),
    {
        let position = self.position_of(snippet_idx);
        proof {
            lemma_first_position(self.live_idxs(), snippet_idx);
        }
        position < self.snippets.len()
    }

    /// The position of the first snippet with the identifier, or the
    /// number of snippets where there is none.
    pub fn position_of(&self, snippet_idx: usize) -> (position: usize)
        ensures
            position == first_position(self.live_idxs(), snippet_idx),
    {
        let mut i: usize = 0;
        while i < self.snippets.len()
            invariant
                i <= self.snippets@.len(),
                forall|q: int| 0 <= q < i ==> self.live_idxs()[q] != snippet_idx,
            decreases self.snippets@.len() - i,
        {
            if self.snippets[i].idx == snippet_idx {
                proof {
                    lemma_first_position_is(self.live_idxs(), snippet_idx, i as int);
                }
                return i;
            }
            i += 1;
        }
        proof {
            lemma_first_position_is(self.live_idxs(), snippet_idx, i as int);
        }
        i
    }

    /// Appends a snippet to the live ones, whatever its identifier. The
    /// caller has the identifier from `return_next_idx`; with one that is
    /// neither live nor pooled the store stays consistent.
    pub fn insert_snippet(&mut self, snippet: CodeSnippet)
        ensures
            final(self).snippets@ == old(self).snippets@.push(snippet),
            final(self).open_idxs == old(self).open_idxs,
            final(self).same_session(old(self)),
            old(self).store_consistent() && !old(self).live_idxs().contains(snippet.idx) && !old(
                self,
            ).open_idxs@.contains(snippet.idx) ==> final(self).store_consistent(),
    {
        proof {
            if self.store_consistent() && !self.live_idxs().contains(snippet.idx)
                && !self.open_idxs@.contains(snippet.idx) {
                lemma_insert_keeps_consistent(self.live_idxs(), self.open_idxs@, snippet.idx);
            }
        }
        self.snippets.push(snippet);
        assert(self.live_idxs() =~= old(self).live_idxs().push(snippet.idx));
    }

    /// Deletes the first snippet with the identifier and puts the
    /// identifier at the back of the pool. Without such a snippet nothing
    /// changes.
    pub fn remove_snippet(&mut self, snippet_idx: usize) -> (removed: Result<
        CodeSnippet,
        StoreError,
    >)
        ensures
            final(self).same_session(old(self)),
            match removed {
                Ok(snippet) => {
                    let position = first_position(old(self).live_idxs(), snippet_idx);
                    &&& old(self).live_idxs().contains(snippet_idx)
                    &&& snippet == old(self).snippets@[position]
                    &&& final(self).snippets@ == old(self).snippets@.remove(position)
                    &&& final(self).open_idxs@ == old(self).open_idxs@.push(snippet_idx)
                },
                Err(error) => {
                    &&& error == StoreError::NotFound
                    &&& !old(self).live_idxs().contains(snippet_idx)
                    &&& final(self).snippets == old(self).snippets
                    &&& final(self).open_idxs == old(self).open_idxs
                },
            },
            old(self).store_consistent() ==> final(self).store_consistent(),
            well_formed(old(self).live_idxs(), old(self).open_idxs@) ==> well_formed(
                final(self).live_idxs(),
                final(self).open_idxs@,
            ),
    {
        let position = self.position_of(snippet_idx);
        proof {
            lemma_first_position(self.live_idxs(), snippet_idx);
        }
        if position < self.snippets.len() {
            let snippet = self.snippets.remove(position);
            self.open_idxs.push_back(snippet_idx);
            proof {
                assert(self.live_idxs() =~= old(self).live_idxs().remove(position as int));
                if old(self).store_consistent() {
                    lemma_remove_keeps_consistent(
                        old(self).live_idxs(),
                        old(self).open_idxs@,
                        snippet_idx,
                    );
                }
                if well_formed(old(self).live_idxs(), old(self).open_idxs@) {
                    lemma_remove_keeps_well_formed(
                        old(self).live_idxs(),
                        old(self).open_idxs@,
                        snippet_idx,
                    );
                }
            }
            Ok(snippet)
        } else {
            Err(StoreError::NotFound)
        }
    }

    /// Puts an edited snippet in the place of the live one with its
    /// identifier: the old one is deleted, which pools the identifier, and
    /// the new one is appended. Without a live one the snippet is just
    /// appended.
    pub fn replace_snippet(&mut self, snippet: CodeSnippet)
        ensures
            final(self).same_session(old(self)),
            old(self).live_idxs().contains(snippet.idx) ==> {
                let position = first_position(old(self).live_idxs(), snippet.idx);
                &&& final(self).snippets@ == old(self).snippets@.remove(position).push(snippet)
                &&& final(self).open_idxs@ == old(self).open_idxs@.push(snippet.idx)
            },
            !old(self).live_idxs().contains(snippet.idx) ==> {
                &&& final(self).snippets@ == old(self).snippets@.push(snippet)
                &&& final(self).open_idxs == old(self).open_idxs
            },
    {
        let _ = self.remove_snippet(snippet.idx);
        self.insert_snippet(snippet);
    }
}

/// The snippets of a store that was never saved.
pub open spec fn example_snippets() -> Seq<SnippetView> {
    seq![
        SnippetView {
            idx: 0,
            name: "Example Snippet #1"@,
            tags: seq!["example"@],
            code: "enum InputMode {\n            Normal,\n            Search,\n            NewSnippet,\n        }"@,
        },
        SnippetView {
            idx: 1,
            name: "Example Snippet #2"@,
            tags: seq!["example"@, "bro"@],
            code: "func hello():\n            print(hey bro)"@,
        },
        SnippetView {
            idx: 2,
            name: "Example Snippet #3"@,
            tags: seq!["example"@, "bro"@],
            code: "func hello():\n            print(hey bro)"@,
        },
    ]
}

impl App {
    /// An application without snippets, ready for a search.
    pub fn empty() -> (app: App)
        ensures
            app@ == (AppView {
                input: Seq::empty(),
                mode: InputMode::Search,
                snippets: Seq::empty(),
                pool: Seq::empty(),
                found: Seq::empty(),
                cursor: None,
                draft: None,
            }),
    {
        let app = App {
            input: String::new(),
            input_mode: InputMode::Search,
            snippets: Vec::new(),
            open_idxs: VecDeque::new(),
            found_snippets: StatefulList::with_items(Vec::new()),
            current_snippet: None,
        };
        assert(app@.snippets =~= Seq::<SnippetView>::empty());
        app
    }

    fn add_example(&mut self, name: &str, code: &str, first_tag: &str, second_tag: Option<&str>)
        requires
            old(self).open_idxs@.len() == 0,
        ensures
            final(self).open_idxs@ == old(self).open_idxs@,
            final(self).same_session(old(self)),
            views_of(final(self).snippets@) == views_of(old(self).snippets@).push(
                SnippetView {
                    idx: old(self).snippets.len(),
                    name: name@,
                    tags: match second_tag {
                        Some(tag) => seq![first_tag@, tag@],
                        None => seq![first_tag@],
                    },
                    code: code@,
                },
            ),
    {
        let mut snippet = CodeSnippet::new(self.return_next_idx());
        snippet.name = name.to_owned();
        snippet.code = code.to_owned();
        let mut tags: Vec<String> = Vec::new();
        tags.push(first_tag.to_owned());
        match second_tag {
            Some(tag) => {
                tags.push(tag.to_owned());
                assert(texts_of(tags@) =~= seq![first_tag@, tag@]);
            },
            None => {
                assert(texts_of(tags@) =~= seq![first_tag@]);
            },
        }
        snippet.tags = tags;
        self.insert_snippet(snippet);
    }
}

impl Clone for App {
    fn clone(&self) -> (copy: Self)
        ensures
            copy@ == self@,
    {
        let copy = App {
            input: self.input.clone(),
            input_mode: self.input_mode,
            snippets: self.snippets.clone(),
            open_idxs: self.open_idxs.clone(),
            found_snippets: self.found_snippets.clone(),
            current_snippet: match &self.current_snippet {
                Some(snippet) => Some(snippet.clone()),
                None => None,
            },
        };
        proof {
            assert(copy@.snippets =~= self@.snippets);
            assert(copy@.found =~= self@.found);
        }
        copy
    }
}

impl Default for App {
    /// The application as it starts where no store was saved: three
    /// example snippets with the identifiers 0, 1 and 2, an empty pool,
    /// and the search open.
    fn default() -> (app: App)
        ensures
            app@ == (AppView {
                input: Seq::empty(),
                mode: InputMode::Search,
                snippets: example_snippets(),
                pool: Seq::empty(),
                found: Seq::empty(),
                cursor: None,
                draft: None,
            }),
            well_formed(app.live_idxs(), app.open_idxs@),
    {
        let mut app = App::empty();
        app.add_example(
            "Example Snippet #1",
            "enum InputMode {\n            Normal,\n            Search,\n            NewSnippet,\n        }",
            "example",
            None,
        );
        app.add_example(
            "Example Snippet #2",
            "func hello():\n            print(hey bro)",
            "example",
            Some("bro"),
        );
        app.add_example(
            "Example Snippet #3",
            "func hello():\n            print(hey bro)",
            "example",
            Some("bro"),
        );
        assert(app@.snippets =~= example_snippets());
        app
    }
}

} // verus!
