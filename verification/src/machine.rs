//! The input machine: what an action does to the application state in
//! each mode, and what is left for the caller to do.

use crate::app::{idxs_of, App, AppView, InputMode, NewSnippetMode};
use crate::indent::{indent, indent_unit, unindent, unindented};
use crate::keys::Action;
use crate::list::{next_selection, previous_selection};
use crate::search::{
    collect_found, lemma_search_exact, listing, search_result, search_snippets, shown, views_of,
};
use crate::snippet::{fresh, CodeSnippet, SnippetView};
use crate::store::{
    consistent, first_position, lemma_create_keeps_well_formed, lemma_first_position,
    lemma_insert_keeps_consistent, lemma_issue_keeps_consistent, lemma_remove_keeps_consistent,
    next_idx_of, pool_after_issue, well_formed,
};
use crate::text::{join_texts, join_with, split_on, split_text};
use vstd::prelude::*;
use vstd::string::StringExecFns;

verus! {

/// What the caller has to do after a step.
#[derive(Debug, PartialEq, Eq)]
pub enum Effect {
    /// Nothing.
    Nothing,
    /// End the program.
    Quit,
    /// Put the text on the clipboard.
    Copy(String),
    /// Write the store to disk.
    Persist,
}

/// An effect as plain mathematical values.
pub enum EffectView {
    Nothing,
    Quit,
    Copy(Seq<char>),
    Persist,
}

impl View for Effect {
    type V = EffectView;

    open spec fn view(&self) -> EffectView {
        match self {
            Effect::Nothing => EffectView::Nothing,
            Effect::Quit => EffectView::Quit,
            Effect::Copy(text) => EffectView::Copy(text@),
            Effect::Persist => EffectView::Persist,
        }
    }
}

/// The separator of tags in the text buffer.
pub open spec fn tag_separator() -> char {
    ' '
}

/// The snippet under the cursor: none where nothing is selected or the
/// cursor stands beyond the end of the list.
pub open spec fn selected_of(state: AppView) -> Option<SnippetView> {
    match state.cursor {
        Some(i) => if i < state.found.len() {
            Some(state.found[i as int])
        } else {
            None
        },
        None => None,
    }
}

/// The list after the state changed. While snippets are listed it shows
/// all of them; while a query is typed it shows what the query finds, and
/// nothing for an empty query; in the other modes it stays as it is. The
/// cursor keeps its number.
pub open spec fn refreshed(state: AppView) -> AppView {
    match state.mode {
        InputMode::Normal => AppView {
            found: shown(state.snippets, listing(state.snippets)),
            ..state
        },
        InputMode::Search => AppView {
            found: if state.input.len() == 0 {
                Seq::empty()
            } else {
                shown(state.snippets, search_result(state.snippets, state.input))
            },
            ..state
        },
        _ => state,
    }
}

/// The store without the first snippet that has the identifier, and the
/// identifier at the back of the pool; the store as it is where no
/// snippet has it.
pub open spec fn deleted(state: AppView, idx: usize) -> AppView {
    let live = idxs_of(state.snippets);
    if live.contains(idx) {
        AppView {
            snippets: state.snippets.remove(first_position(live, idx)),
            pool: state.pool.push(idx),
            ..state
        }
    } else {
        state
    }
}

/// A step while snippets are listed.
pub open spec fn normal_step(state: AppView, action: Action) -> (AppView, EffectView) {
    match action {
        Action::NewSnippet => (
            AppView {
                pool: pool_after_issue(state.pool),
                draft: Some(fresh(next_idx_of(idxs_of(state.snippets), state.pool))),
                input: Seq::empty(),
                mode: InputMode::NewSnippet(NewSnippetMode::TypeName),
                ..state
            },
            EffectView::Nothing,
        ),
        Action::Find => (AppView { mode: InputMode::Search, ..state }, EffectView::Nothing),
        Action::CopySelected => match selected_of(state) {
            Some(snippet) => (state, EffectView::Copy(snippet.code)),
            None => (state, EffectView::Nothing),
        },
        Action::DeleteSelected => match selected_of(state) {
            Some(snippet) => if state.snippets.len() > 0 {
                (AppView { mode: InputMode::ConfirmDelete(snippet.idx), ..state }, EffectView::Nothing)
            } else {
                (state, EffectView::Nothing)
            },
            None => (state, EffectView::Nothing),
        },
        Action::EditSelected => match selected_of(state) {
            Some(snippet) => (
                AppView {
                    draft: Some(snippet),
                    input: join_with(snippet.tags, tag_separator()),
                    mode: InputMode::NewSnippet(NewSnippetMode::TypeName),
                    ..state
                },
                EffectView::Nothing,
            ),
            None => (state, EffectView::Nothing),
        },
        Action::CursorUp => (
            AppView { cursor: previous_selection(state.cursor, state.found.len()), ..state },
            EffectView::Nothing,
        ),
        Action::CursorDown => (
            AppView { cursor: next_selection(state.cursor, state.found.len()), ..state },
            EffectView::Nothing,
        ),
        Action::CursorClear => (AppView { cursor: None, ..state }, EffectView::Nothing),
        Action::Quit => (state, EffectView::Quit),
        _ => (state, EffectView::Nothing),
    }
}

/// A step while a query is typed. Leaving the search, by confirming or
/// by quitting, goes back to the listing.
pub open spec fn search_step(state: AppView, action: Action) -> (AppView, EffectView) {
    match action {
        Action::Insert(c) => (AppView { input: state.input.push(c), ..state }, EffectView::Nothing),
        Action::Backspace => (
            AppView {
                input: if state.input.len() > 0 {
                    state.input.drop_last()
                } else {
                    state.input
                },
                ..state
            },
            EffectView::Nothing,
        ),
        Action::CursorUp => (
            AppView { cursor: previous_selection(state.cursor, state.found.len()), ..state },
            EffectView::Nothing,
        ),
        Action::CursorDown => (
            AppView { cursor: next_selection(state.cursor, state.found.len()), ..state },
            EffectView::Nothing,
        ),
        Action::CursorClear => (AppView { cursor: None, ..state }, EffectView::Nothing),
        Action::Confirm => (AppView { mode: InputMode::Normal, ..state }, EffectView::Nothing),
        Action::Quit => (AppView { mode: InputMode::Normal, ..state }, EffectView::Nothing),
        _ => (state, EffectView::Nothing),
    }
}

/// A step while a deletion waits for its confirmation. A yes deletes the
/// snippet, if the store still has it, and takes the cursor off the list.
pub open spec fn confirm_step(state: AppView, idx: usize, action: Action) -> (
    AppView,
    EffectView,
) {
    match action {
        Action::ConfirmYes => (
            AppView { cursor: None, mode: InputMode::Normal, ..deleted(state, idx) },
            if idxs_of(state.snippets).contains(idx) {
                EffectView::Persist
            } else {
                EffectView::Nothing
            },
        ),
        Action::ConfirmNo => (AppView { mode: InputMode::Normal, ..state }, EffectView::Nothing),
        _ => (state, EffectView::Nothing),
    }
}

/// The field that the keys go to.
pub open spec fn active_field(state: AppView, stage: NewSnippetMode) -> Seq<char>
    recommends
        state.draft is Some,
{
    match stage {
        NewSnippetMode::TypeName => state.draft.unwrap().name,
        NewSnippetMode::TypeTags => state.input,
        NewSnippetMode::TypeCode => state.draft.unwrap().code,
    }
}

/// The state with a new text in the field that the keys go to.
pub open spec fn with_active_field(state: AppView, stage: NewSnippetMode, text: Seq<char>) -> AppView
    recommends
        state.draft is Some,
{
    match stage {
        NewSnippetMode::TypeName => AppView {
            draft: Some(SnippetView { name: text, ..state.draft.unwrap() }),
            ..state
        },
        NewSnippetMode::TypeTags => AppView { input: text, ..state },
        NewSnippetMode::TypeCode => AppView {
            draft: Some(SnippetView { code: text, ..state.draft.unwrap() }),
            ..state
        },
    }
}

/// What an action makes of the text of a field.
pub open spec fn edited(text: Seq<char>, action: Action, clipboard: Option<Seq<char>>) -> Seq<
    char,
> {
    match action {
        Action::Insert(c) => text.push(c),
        Action::Backspace => if text.len() > 0 {
            text.drop_last()
        } else {
            text
        },
        Action::Paste => match clipboard {
            Some(pasted) => text + pasted,
            None => text,
        },
        Action::Indent => text + indent_unit(),
        Action::Unindent => unindented(text),
        _ => text,
    }
}

/// The draft as it is saved: from the tags stage on, its tags are the
/// pieces of the text buffer.
pub open spec fn final_draft(state: AppView, stage: NewSnippetMode) -> SnippetView
    recommends
        state.draft is Some,
{
    if stage == NewSnippetMode::TypeName {
        state.draft.unwrap()
    } else {
        SnippetView { tags: split_on(state.input, tag_separator()), ..state.draft.unwrap() }
    }
}

/// The state after the draft was saved: a live snippet with the draft's
/// identifier is deleted first, which pools the identifier; the draft is
/// appended; the editing ends.
pub open spec fn committed(state: AppView, stage: NewSnippetMode) -> AppView
    recommends
        state.draft is Some,
{
    let draft = final_draft(state, stage);
    let cleared = deleted(state, draft.idx);
    AppView {
        snippets: cleared.snippets.push(draft),
        draft: None,
        input: Seq::empty(),
        mode: InputMode::Normal,
        ..cleared
    }
}

/// A step while a snippet is edited. Without a draft the mode is left.
pub open spec fn edit_step(
    state: AppView,
    stage: NewSnippetMode,
    action: Action,
    clipboard: Option<Seq<char>>,
) -> (AppView, EffectView) {
    if state.draft is None {
        (AppView { mode: InputMode::Normal, ..state }, EffectView::Nothing)
    } else {
        match action {
            Action::Cancel => (
                AppView { draft: None, input: Seq::empty(), mode: InputMode::Normal, ..state },
                EffectView::Nothing,
            ),
            Action::Save => (committed(state, stage), EffectView::Persist),
            Action::Confirm => match stage {
                NewSnippetMode::TypeName => (
                    AppView { mode: InputMode::NewSnippet(NewSnippetMode::TypeTags), ..state },
                    EffectView::Nothing,
                ),
                NewSnippetMode::TypeTags => (
                    AppView {
                        draft: Some(final_draft(state, stage)),
                        mode: InputMode::NewSnippet(NewSnippetMode::TypeCode),
                        ..state
                    },
                    EffectView::Nothing,
                ),
                NewSnippetMode::TypeCode => (
                    with_active_field(state, stage, active_field(state, stage).push('\n')),
                    EffectView::Nothing,
                ),
            },
            _ => (
                with_active_field(
                    state,
                    stage,
                    edited(active_field(state, stage), action, clipboard),
                ),
                EffectView::Nothing,
            ),
        }
    }
}

/// A step of the machine: what the action does in the mode of the state,
/// and the list brought up to date.
pub open spec fn stepped(state: AppView, action: Action, clipboard: Option<Seq<char>>) -> (
    AppView,
    EffectView,
) {
    let (next, effect) = match state.mode {
        InputMode::Normal => normal_step(state, action),
        InputMode::Search => search_step(state, action),
        InputMode::NewSnippet(stage) => edit_step(state, stage, action, clipboard),
        InputMode::ConfirmDelete(idx) => confirm_step(state, idx, action),
    };
    (refreshed(next), effect)
}

/// The text that the clipboard gave, if it gave any.
pub open spec fn text_of(clipboard: Option<String>) -> Option<Seq<char>> {
    match clipboard {
        Some(text) => Some(text@),
        None => None,
    }
}

impl App {
    /// Brings the list up to date with the store, the mode and the query.
    pub fn refresh(&mut self)
        ensures
            final(self)@ == refreshed(old(self)@),
    {
        match self.input_mode {
            InputMode::Normal => {
                proof {
                    reveal_strlit("");
                }
                let found = search_snippets(&self.snippets, "");
                self.found_snippets.items = collect_found(&self.snippets, &found);
            },
            InputMode::Search => {
                if self.input.as_str().is_empty() {
                    self.found_snippets.items = Vec::new();
                    assert(views_of(self.found_snippets.items@) =~= Seq::<SnippetView>::empty());
                } else {
                    let found = search_snippets(&self.snippets, self.input.as_str());
                    let count = self.snippets.len();
                    proof {
                        lemma_search_exact(views_of(self.snippets@), self.input@, count as int);
                    }
                    self.found_snippets.items = collect_found(&self.snippets, &found);
                }
            },
            _ => {},
        }
    }

    /// Opens the selected snippet for editing: a copy of it becomes the
    /// draft, its tags go to the text buffer with a space between them,
    /// and the keys go to the name. Without a selection nothing changes.
    pub fn edit_snippet_from_list(&mut self)
        ensures
            final(self)@ == normal_step(old(self)@, Action::EditSelected).0,
    {
        let chosen = match self.found_snippets.selected_item() {
            Some(snippet) => Some(snippet.clone()),
            None => None,
        };
        match chosen {
            Some(draft) => {
                self.input = join_texts(&draft.tags, ' ');
                self.current_snippet = Some(draft);
                self.input_mode = InputMode::NewSnippet(NewSnippetMode::TypeName);
            },
            None => {},
        }
    }

    fn step_normal(&mut self, action: Action) -> (effect: Effect)
        ensures
            (final(self)@, effect@) == normal_step(old(self)@, action),
    {
        match action {
            Action::NewSnippet => {
                let idx = self.return_next_idx();
                self.current_snippet = Some(CodeSnippet::new(idx));
                self.input = String::new();
                self.input_mode = InputMode::NewSnippet(NewSnippetMode::TypeName);
                Effect::Nothing
            },
            Action::Find => {
                self.input_mode = InputMode::Search;
                Effect::Nothing
            },
            Action::CopySelected => {
                match self.found_snippets.selected_item() {
                    Some(snippet) => Effect::Copy(snippet.code.clone()),
                    None => Effect::Nothing,
                }
            },
            Action::DeleteSelected => {
                let target = match self.found_snippets.selected_item() {
                    Some(snippet) => Some(snippet.idx),
                    None => None,
                };
                match target {
                    Some(idx) => {
                        if self.snippets.len() > 0 {
                            self.input_mode = InputMode::ConfirmDelete(idx);
                        }
                    },
                    None => {},
                }
                Effect::Nothing
            },
            Action::EditSelected => {
                self.edit_snippet_from_list();
                Effect::Nothing
            },
            Action::CursorUp => {
                self.found_snippets.previous();
                Effect::Nothing
            },
            Action::CursorDown => {
                self.found_snippets.next();
                Effect::Nothing
            },
            Action::CursorClear => {
                self.found_snippets.unselect();
                Effect::Nothing
            },
            Action::Quit => Effect::Quit,
            _ => Effect::Nothing,
        }
    }

    fn step_search(&mut self, action: Action) -> (effect: Effect)
        ensures
            (final(self)@, effect@) == search_step(old(self)@, action),
    {
        match action {
            Action::Insert(c) => {
                self.input.push(c);
            },
            Action::Backspace => {
                let _ = self.input.pop();
            },
            Action::CursorUp => {
                self.found_snippets.previous();
            },
            Action::CursorDown => {
                self.found_snippets.next();
            },
            Action::CursorClear => {
                self.found_snippets.unselect();
            },
            Action::Confirm => {
                self.input_mode = InputMode::Normal;
            },
            Action::Quit => {
                self.input_mode = InputMode::Normal;
            },
            _ => {},
        }
        Effect::Nothing
    }

    /// Deletes the snippet with the identifier, if the store has it.
    fn delete(&mut self, idx: usize) -> (removed: bool)
        ensures
            final(self)@ == deleted(old(self)@, idx),
            removed == idxs_of(old(self)@.snippets).contains(idx),
    {
        match self.remove_snippet(idx) {
            Ok(_) => {
                proof {
                    let position = first_position(old(self).live_idxs(), idx);
                    lemma_first_position(old(self).live_idxs(), idx);
                    assert(views_of(self.snippets@) =~= views_of(old(self).snippets@).remove(
                        position,
                    ));
                }
                true
            },
            Err(_) => false,
        }
    }

    fn step_confirm(&mut self, idx: usize, action: Action) -> (effect: Effect)
        ensures
            (final(self)@, effect@) == confirm_step(old(self)@, idx, action),
    {
        match action {
            Action::ConfirmYes => {
                let removed = self.delete(idx);
                self.found_snippets.unselect();
                self.input_mode = InputMode::Normal;
                if removed {
                    Effect::Persist
                } else {
                    Effect::Nothing
                }
            },
            Action::ConfirmNo => {
                self.input_mode = InputMode::Normal;
                Effect::Nothing
            },
            _ => Effect::Nothing,
        }
    }
}

/// Applies an action to the text of a field.
fn edit_field(field: &mut String, action: Action, clipboard: &Option<String>)
    ensures
        final(field)@ == edited(old(field)@, action, text_of(*clipboard)),
{
    match action {
        Action::Insert(c) => {
            field.push(c);
        },
        Action::Backspace => {
            let _ = field.pop();
        },
        Action::Paste => {
            match clipboard {
                Some(pasted) => {
                    field.append(pasted.as_str());
                },
                None => {},
            }
        },
        Action::Indent => {
            indent(field);
        },
        Action::Unindent => {
            unindent(field);
        },
        _ => {},
    }
}

impl App {
    fn step_edit(&mut self, stage: NewSnippetMode, action: Action, clipboard: Option<String>) -> (effect:
        Effect)
        ensures
            (final(self)@, effect@) == edit_step(old(self)@, stage, action, text_of(clipboard)),
    {
        let mut draft = match self.current_snippet.take() {
            Some(draft) => draft,
            None => {
                self.input_mode = InputMode::Normal;
                return Effect::Nothing;
            },
        };
        match action {
            Action::Cancel => {
                self.input = String::new();
                self.input_mode = InputMode::Normal;
                Effect::Nothing
            },
            Action::Save => {
                match stage {
                    NewSnippetMode::TypeName => {},
                    _ => {
                        draft.tags = split_text(self.input.as_str(), ' ');
                    },
                }
                let ghost saved = draft@;
                self.replace_snippet(draft);
                proof {
                    let live = old(self).live_idxs();
                    let before = views_of(old(self).snippets@);
                    lemma_first_position(live, saved.idx);
                    if live.contains(saved.idx) {
                        assert(views_of(self.snippets@) =~= before.remove(
                            first_position(live, saved.idx),
                        ).push(saved));
                    } else {
                        assert(views_of(self.snippets@) =~= before.push(saved));
                    }
                }
                self.input = String::new();
                self.input_mode = InputMode::Normal;
                Effect::Persist
            },
            Action::Confirm => {
                match stage {
                    NewSnippetMode::TypeName => {
                        self.input_mode = InputMode::NewSnippet(NewSnippetMode::TypeTags);
                    },
                    NewSnippetMode::TypeTags => {
                        draft.tags = split_text(self.input.as_str(), ' ');
                        self.input_mode = InputMode::NewSnippet(NewSnippetMode::TypeCode);
                    },
                    NewSnippetMode::TypeCode => {
                        draft.code.push('\n');
                    },
                }
                self.current_snippet = Some(draft);
                Effect::Nothing
            },
            _ => {
                match stage {
                    NewSnippetMode::TypeName => {
                        edit_field(&mut draft.name, action, &clipboard);
                    },
                    NewSnippetMode::TypeTags => {
                        edit_field(&mut self.input, action, &clipboard);
                    },
                    NewSnippetMode::TypeCode => {
                        edit_field(&mut draft.code, action, &clipboard);
                    },
                }
                self.current_snippet = Some(draft);
                Effect::Nothing
            },
        }
    }

    /// Takes one step: applies the action as the mode of the state tells,
    /// brings the list up to date, and says what is left for the caller
    /// to do. `clipboard` is the text of the clipboard, which a paste
    /// appends; no other action looks at it.
    pub fn step(&mut self, action: Action, clipboard: Option<String>) -> (effect: Effect)
        ensures
            (final(self)@, effect@) == stepped(old(self)@, action, text_of(clipboard)),
    {
        let effect = match self.input_mode {
            InputMode::Normal => self.step_normal(action),
            InputMode::Search => self.step_search(action),
            InputMode::NewSnippet(stage) => self.step_edit(stage, action, clipboard),
            InputMode::ConfirmDelete(idx) => self.step_confirm(idx, action),
        };
        self.refresh();
        effect
    }
}

/// Deleting by identifier leaves no snippet with that identifier, where
/// the identifiers were all different, and keeps them different.
proof fn lemma_deleted_keeps_distinct(state: AppView, idx: usize)
    requires
        idxs_of(state.snippets).no_duplicates(),
    ensures
        idxs_of(deleted(state, idx).snippets).no_duplicates(),
        !idxs_of(deleted(state, idx).snippets).contains(idx),
{
    let live = idxs_of(state.snippets);
    if live.contains(idx) {
        lemma_first_position(live, idx);
        lemma_remove_keeps_consistent(live, Seq::<usize>::empty(), idx);
        assert(idxs_of(deleted(state, idx).snippets) =~= live.remove(first_position(live, idx)));
    }
}

/// No step makes two live snippets share an identifier: saving a draft
/// deletes the live snippet with its identifier before the draft goes in.
pub proof fn lemma_step_keeps_idxs_distinct(
    state: AppView,
    action: Action,
    clipboard: Option<Seq<char>>,
)
    requires
        idxs_of(state.snippets).no_duplicates(),
    ensures
        idxs_of(stepped(state, action, clipboard).0.snippets).no_duplicates(),
{
    match state.mode {
        InputMode::NewSnippet(stage) => {
            if state.draft is Some && action == Action::Save {
                let draft = final_draft(state, stage);
                lemma_deleted_keeps_distinct(state, draft.idx);
                let cleared = idxs_of(deleted(state, draft.idx).snippets);
                lemma_insert_keeps_consistent(cleared, Seq::<usize>::empty(), draft.idx);
                assert(idxs_of(committed(state, stage).snippets) =~= cleared.push(draft.idx));
            }
        },
        InputMode::ConfirmDelete(idx) => {
            lemma_deleted_keeps_distinct(state, idx);
        },
        _ => {},
    }
}

/// A step keeps the store consistent: no live identifier occurs twice,
/// and none is in the pool. The one step that is left out is the saving
/// of a draft whose identifier is live or pooled at that moment, which
/// leaves the identifier both live and pooled.
pub proof fn lemma_step_keeps_consistent(
    state: AppView,
    action: Action,
    clipboard: Option<Seq<char>>,
)
    requires
        consistent(idxs_of(state.snippets), state.pool),
        state.mode is NewSnippet && state.draft is Some && action == Action::Save ==> {
            &&& !idxs_of(state.snippets).contains(state.draft.unwrap().idx)
            &&& !state.pool.contains(state.draft.unwrap().idx)
        },
    ensures
        consistent(
            idxs_of(stepped(state, action, clipboard).0.snippets),
            stepped(state, action, clipboard).0.pool,
        ),
{
    let live = idxs_of(state.snippets);
    match state.mode {
        InputMode::Normal => {
            lemma_issue_keeps_consistent(live, state.pool);
        },
        InputMode::Search => {},
        InputMode::NewSnippet(stage) => {
            if state.draft is Some && action == Action::Save {
                let draft = final_draft(state, stage);
                lemma_insert_keeps_consistent(live, state.pool, draft.idx);
                assert(idxs_of(committed(state, stage).snippets) =~= live.push(draft.idx));
            }
        },
        InputMode::ConfirmDelete(idx) => {
            if action == Action::ConfirmYes && live.contains(idx) {
                lemma_first_position(live, idx);
                lemma_remove_keeps_consistent(live, state.pool, idx);
                assert(idxs_of(deleted(state, idx).snippets) =~= live.remove(
                    first_position(live, idx),
                ));
            }
        },
    }
}

/// In a well-formed store a new snippet made through the machine gets a
/// fresh identifier, and the store with the snippet saved is well formed
/// again, whatever is typed between the two steps.
pub proof fn lemma_new_then_save_keeps_well_formed(
    state: AppView,
    edited_draft: SnippetView,
    buffer: Seq<char>,
    stage: NewSnippetMode,
)
    requires
        state.mode == InputMode::Normal,
        well_formed(idxs_of(state.snippets), state.pool),
        state.snippets.len() <= usize::MAX,
        edited_draft.idx == next_idx_of(idxs_of(state.snippets), state.pool),
    ensures
        ({
            let opened = stepped(state, Action::NewSnippet, None).0;
            let typed = AppView {
                draft: Some(edited_draft),
                input: buffer,
                mode: InputMode::NewSnippet(stage),
                ..opened
            };
            let saved = stepped(typed, Action::Save, None).0;
            &&& opened.draft == Some(fresh(edited_draft.idx))
            &&& !idxs_of(state.snippets).contains(edited_draft.idx)
            &&& saved.snippets == state.snippets.push(final_draft(typed, stage))
            &&& saved.pool == pool_after_issue(state.pool)
            &&& well_formed(idxs_of(saved.snippets), saved.pool)
        }),
{
    let live = idxs_of(state.snippets);
    lemma_create_keeps_well_formed(live, state.pool);
    let opened = stepped(state, Action::NewSnippet, None).0;
    let typed = AppView {
        draft: Some(edited_draft),
        input: buffer,
        mode: InputMode::NewSnippet(stage),
        ..opened
    };
    let draft = final_draft(typed, stage);
    assert(idxs_of(state.snippets.push(draft)) =~= live.push(draft.idx));
}

} // verus!
