use snippy::app::{App, InputMode, NewSnippetMode};
use snippy::keys::Action;
use snippy::machine::Effect;
use snippy::snippet::CodeSnippet;

fn snippet(idx: usize, name: &str, tags: &[&str], code: &str) -> CodeSnippet {
    let mut made = CodeSnippet::new(idx);
    made.name = name.to_string();
    made.tags = tags.iter().map(|tag| tag.to_string()).collect();
    made.code = code.to_string();
    made
}

fn listing() -> App {
    let mut app = App::default();
    assert_eq!(app.step(Action::Confirm, None), Effect::Nothing);
    assert_eq!(app.input_mode, InputMode::Normal);
    app
}

fn editing(stage: NewSnippetMode) -> App {
    let mut app = listing();
    app.step(Action::NewSnippet, None);
    app.input_mode = InputMode::NewSnippet(stage);
    app
}

fn live(app: &App) -> Vec<usize> {
    app.snippets.iter().map(|snippet| snippet.idx).collect()
}

fn pool(app: &App) -> Vec<usize> {
    app.open_idxs.iter().copied().collect()
}

fn type_text(app: &mut App, text: &str) {
    for c in text.chars() {
        assert_eq!(app.step(Action::Insert(c), None), Effect::Nothing);
    }
}

#[test]
fn machine_starts_in_search() {
    assert_eq!(InputMode::default(), InputMode::Search);
    assert_eq!(App::default().input_mode, InputMode::Search);
}

#[test]
fn listing_shows_all_snippets_after_a_step() {
    let app = listing();
    assert_eq!(app.found_snippets.items, app.snippets);
}

#[test]
fn new_snippet_allocates_an_identifier_and_opens_the_name() {
    let mut app = listing();
    app.input = "left over".to_string();
    assert_eq!(app.step(Action::NewSnippet, None), Effect::Nothing);
    assert_eq!(app.input_mode, InputMode::NewSnippet(NewSnippetMode::TypeName));
    assert_eq!(app.current_snippet, Some(CodeSnippet::new(3)));
    assert_eq!(app.input, "");
    assert_eq!(live(&app), vec![0, 1, 2]);
}

#[test]
fn new_snippet_takes_the_oldest_pooled_identifier() {
    let mut app = listing();
    app.remove_snippet(1).unwrap();
    app.remove_snippet(0).unwrap();
    app.step(Action::NewSnippet, None);
    assert_eq!(app.current_snippet.as_ref().unwrap().idx, 1);
    assert_eq!(pool(&app), vec![0]);
}

#[test]
fn find_opens_the_search_with_the_query_that_is_there() {
    let mut app = listing();
    assert_eq!(app.step(Action::Find, None), Effect::Nothing);
    assert_eq!(app.input_mode, InputMode::Search);
    assert!(app.found_snippets.items.is_empty());
    let mut app = listing();
    app.input = "#2".to_string();
    app.step(Action::Find, None);
    assert_eq!(app.found_snippets.items.len(), 1);
    assert_eq!(app.found_snippets.items[0].idx, 1);
}

#[test]
fn copy_hands_the_code_of_the_selected_snippet_out() {
    let mut app = listing();
    assert_eq!(app.step(Action::CopySelected, None), Effect::Nothing);
    app.step(Action::CursorDown, None);
    app.step(Action::CursorDown, None);
    assert_eq!(
        app.step(Action::CopySelected, None),
        Effect::Copy("func hello():\n            print(hey bro)".to_string())
    );
    assert_eq!(app.input_mode, InputMode::Normal);
}

#[test]
fn copy_with_a_cursor_beyond_the_list_does_nothing() {
    let mut app = listing();
    app.found_snippets.state.select(Some(3));
    assert_eq!(app.step(Action::CopySelected, None), Effect::Nothing);
}

#[test]
fn delete_asks_for_confirmation_of_the_selected_snippet() {
    let mut app = listing();
    app.step(Action::DeleteSelected, None);
    assert_eq!(app.input_mode, InputMode::Normal);
    app.step(Action::CursorUp, None);
    app.step(Action::CursorUp, None);
    assert_eq!(app.step(Action::DeleteSelected, None), Effect::Nothing);
    assert_eq!(app.input_mode, InputMode::ConfirmDelete(2));
    assert_eq!(live(&app), vec![0, 1, 2]);
}

#[test]
fn edit_clones_the_selected_snippet_and_joins_its_tags() {
    let mut app = listing();
    assert_eq!(app.step(Action::EditSelected, None), Effect::Nothing);
    assert_eq!(app.input_mode, InputMode::Normal);
    app.step(Action::CursorDown, None);
    app.step(Action::CursorDown, None);
    app.step(Action::EditSelected, None);
    assert_eq!(app.input_mode, InputMode::NewSnippet(NewSnippetMode::TypeName));
    assert_eq!(app.current_snippet, Some(app.snippets[1].clone()));
    assert_eq!(app.input, "example bro");
}

#[test]
fn cursor_keys_move_the_selection_in_the_listing() {
    let mut app = listing();
    app.step(Action::CursorDown, None);
    assert_eq!(app.found_snippets.state.selected(), Some(0));
    app.step(Action::CursorUp, None);
    assert_eq!(app.found_snippets.state.selected(), Some(2));
    app.step(Action::CursorDown, None);
    assert_eq!(app.found_snippets.state.selected(), Some(0));
    app.step(Action::CursorClear, None);
    assert_eq!(app.found_snippets.state.selected(), None);
}

#[test]
fn quit_is_honoured_in_the_listing() {
    let mut app = listing();
    assert_eq!(app.step(Action::Quit, None), Effect::Quit);
    assert_eq!(app.input_mode, InputMode::Normal);
}

#[test]
fn listing_ignores_actions_of_other_modes() {
    for action in [
        Action::Insert('q'),
        Action::Backspace,
        Action::Confirm,
        Action::Save,
        Action::Paste,
        Action::Indent,
        Action::Unindent,
        Action::Cancel,
        Action::ConfirmYes,
        Action::ConfirmNo,
        Action::Ignore,
    ] {
        let mut app = listing();
        app.input = "kept".to_string();
        assert_eq!(app.step(action, Some("clip".to_string())), Effect::Nothing);
        assert_eq!(app.input_mode, InputMode::Normal);
        assert_eq!(app.input, "kept");
        assert_eq!(live(&app), vec![0, 1, 2]);
        assert!(app.current_snippet.is_none());
    }
}

#[test]
fn typing_in_search_filters_on_every_key() {
    let mut app = App::default();
    type_text(&mut app, "sn");
    assert_eq!(app.input, "sn");
    assert_eq!(app.found_snippets.items.len(), 3);
    type_text(&mut app, "ippet #3");
    assert_eq!(app.found_snippets.items.len(), 1);
    assert_eq!(app.found_snippets.items[0].idx, 2);
    app.step(Action::Backspace, None);
    assert_eq!(app.input, "snippet #");
    assert_eq!(app.found_snippets.items.len(), 3);
    assert_eq!(app.input_mode, InputMode::Search);
}

#[test]
fn backspace_to_an_empty_query_clears_the_list() {
    let mut app = App::default();
    type_text(&mut app, "e");
    assert_eq!(app.found_snippets.items.len(), 3);
    app.step(Action::Backspace, None);
    assert_eq!(app.input, "");
    assert!(app.found_snippets.items.is_empty());
    app.step(Action::Backspace, None);
    assert_eq!(app.input, "");
}

#[test]
fn cursor_keys_move_the_selection_in_search() {
    let mut app = App::default();
    type_text(&mut app, "bro");
    app.step(Action::CursorDown, None);
    app.step(Action::CursorDown, None);
    assert_eq!(app.found_snippets.state.selected(), Some(1));
    app.step(Action::CursorDown, None);
    assert_eq!(app.found_snippets.state.selected(), Some(0));
    app.step(Action::CursorUp, None);
    assert_eq!(app.found_snippets.state.selected(), Some(1));
    app.step(Action::CursorClear, None);
    assert_eq!(app.found_snippets.state.selected(), None);
}

#[test]
fn confirm_leaves_search_for_the_listing() {
    let mut app = App::default();
    type_text(&mut app, "#1");
    assert_eq!(app.step(Action::Confirm, None), Effect::Nothing);
    assert_eq!(app.input_mode, InputMode::Normal);
    assert_eq!(app.input, "#1");
    assert_eq!(app.found_snippets.items.len(), 3);
}

#[test]
fn quit_in_search_goes_back_to_the_listing() {
    let mut app = App::default();
    assert_eq!(app.step(Action::Quit, None), Effect::Nothing);
    assert_eq!(app.input_mode, InputMode::Normal);
}

#[test]
fn typing_goes_to_the_field_of_the_stage() {
    let mut app = editing(NewSnippetMode::TypeName);
    type_text(&mut app, "!");
    assert_eq!(app.current_snippet.as_ref().unwrap().name, "Unnamed Code Snippet!");
    app.step(Action::Backspace, None);
    assert_eq!(app.current_snippet.as_ref().unwrap().name, "Unnamed Code Snippet");
    let mut app = editing(NewSnippetMode::TypeTags);
    type_text(&mut app, "a b");
    assert_eq!(app.input, "a b");
    assert_eq!(app.current_snippet, Some(CodeSnippet::new(3)));
    let mut app = editing(NewSnippetMode::TypeCode);
    type_text(&mut app, "x=1");
    app.step(Action::Backspace, None);
    assert_eq!(app.current_snippet.as_ref().unwrap().code, "x=");
    assert_eq!(app.input, "");
}

#[test]
fn backspace_on_an_empty_field_does_nothing() {
    let mut app = editing(NewSnippetMode::TypeCode);
    app.step(Action::Backspace, None);
    assert_eq!(app.current_snippet.as_ref().unwrap().code, "");
    assert_eq!(app.input_mode, InputMode::NewSnippet(NewSnippetMode::TypeCode));
}

#[test]
fn confirm_advances_the_stage() {
    let mut app = editing(NewSnippetMode::TypeName);
    assert_eq!(app.step(Action::Confirm, None), Effect::Nothing);
    assert_eq!(app.input_mode, InputMode::NewSnippet(NewSnippetMode::TypeTags));
    app.step(Action::Confirm, None);
    assert_eq!(app.input_mode, InputMode::NewSnippet(NewSnippetMode::TypeCode));
}

#[test]
fn confirm_in_tags_splits_the_buffer_into_tags() {
    let mut app = editing(NewSnippetMode::TypeTags);
    type_text(&mut app, "a  b");
    app.step(Action::Confirm, None);
    assert_eq!(
        app.current_snippet.as_ref().unwrap().tags,
        vec!["a".to_string(), "".to_string(), "b".to_string()]
    );
    assert_eq!(app.input, "a  b");
    assert_eq!(app.input_mode, InputMode::NewSnippet(NewSnippetMode::TypeCode));
}

#[test]
fn confirm_in_code_appends_a_newline() {
    let mut app = editing(NewSnippetMode::TypeCode);
    type_text(&mut app, "a");
    app.step(Action::Confirm, None);
    type_text(&mut app, "b");
    assert_eq!(app.current_snippet.as_ref().unwrap().code, "a\nb");
    assert_eq!(app.input_mode, InputMode::NewSnippet(NewSnippetMode::TypeCode));
}

#[test]
fn paste_appends_the_clipboard_verbatim() {
    let mut app = editing(NewSnippetMode::TypeCode);
    type_text(&mut app, "x");
    assert_eq!(app.step(Action::Paste, Some("\tfn main() {}\n".to_string())), Effect::Nothing);
    assert_eq!(app.current_snippet.as_ref().unwrap().code, "x\tfn main() {}\n");
    let mut app = editing(NewSnippetMode::TypeTags);
    app.step(Action::Paste, Some("t1 t2".to_string()));
    assert_eq!(app.input, "t1 t2");
    let mut app = editing(NewSnippetMode::TypeName);
    app.step(Action::Paste, Some("?".to_string()));
    assert_eq!(app.current_snippet.as_ref().unwrap().name, "Unnamed Code Snippet?");
}

#[test]
fn paste_without_clipboard_text_does_nothing() {
    let mut app = editing(NewSnippetMode::TypeCode);
    type_text(&mut app, "x");
    assert_eq!(app.step(Action::Paste, None), Effect::Nothing);
    assert_eq!(app.current_snippet.as_ref().unwrap().code, "x");
}

#[test]
fn clipboard_text_is_ignored_by_other_actions() {
    let mut app = editing(NewSnippetMode::TypeCode);
    app.step(Action::Insert('x'), Some("clip".to_string()));
    assert_eq!(app.current_snippet.as_ref().unwrap().code, "x");
}

#[test]
fn tab_appends_four_spaces_and_back_tab_takes_them() {
    let mut app = editing(NewSnippetMode::TypeCode);
    type_text(&mut app, "if x:");
    app.step(Action::Confirm, None);
    app.step(Action::Indent, None);
    assert_eq!(app.current_snippet.as_ref().unwrap().code, "if x:\n    ");
    app.step(Action::Indent, None);
    app.step(Action::Unindent, None);
    assert_eq!(app.current_snippet.as_ref().unwrap().code, "if x:\n    ");
    app.step(Action::Unindent, None);
    assert_eq!(app.current_snippet.as_ref().unwrap().code, "if x:\n");
    let mut app = editing(NewSnippetMode::TypeTags);
    app.step(Action::Indent, None);
    assert_eq!(app.input, "    ");
}

#[test]
fn cancel_discards_the_draft() {
    let mut app = editing(NewSnippetMode::TypeTags);
    type_text(&mut app, "tags");
    assert_eq!(app.step(Action::Cancel, None), Effect::Nothing);
    assert_eq!(app.input_mode, InputMode::Normal);
    assert!(app.current_snippet.is_none());
    assert_eq!(app.input, "");
    assert_eq!(live(&app), vec![0, 1, 2]);
}

#[test]
fn save_inserts_a_new_snippet_with_its_tags() {
    let mut app = listing();
    app.step(Action::NewSnippet, None);
    app.step(Action::Backspace, None);
    app.step(Action::Confirm, None);
    type_text(&mut app, "one two");
    app.step(Action::Confirm, None);
    type_text(&mut app, "code");
    assert_eq!(app.step(Action::Save, None), Effect::Persist);
    assert_eq!(app.input_mode, InputMode::Normal);
    assert!(app.current_snippet.is_none());
    assert_eq!(app.input, "");
    assert_eq!(live(&app), vec![0, 1, 2, 3]);
    assert_eq!(
        app.snippets[3],
        snippet(3, "Unnamed Code Snippe", &["one", "two"], "code")
    );
    assert!(pool(&app).is_empty());
    assert_eq!(app.found_snippets.items, app.snippets);
}

#[test]
fn save_in_the_name_stage_keeps_the_tags_of_the_draft() {
    let mut app = listing();
    app.step(Action::CursorDown, None);
    app.step(Action::CursorDown, None);
    app.step(Action::EditSelected, None);
    app.input = "ignored".to_string();
    app.step(Action::Save, None);
    assert_eq!(app.snippets[2].idx, 1);
    assert_eq!(app.snippets[2].tags, vec!["example".to_string(), "bro".to_string()]);
    let mut app = editing(NewSnippetMode::TypeName);
    app.step(Action::Save, None);
    assert!(app.snippets[3].tags.is_empty());
}

#[test]
fn save_from_the_tags_stage_on_takes_the_tags_from_the_buffer() {
    let mut app = editing(NewSnippetMode::TypeTags);
    type_text(&mut app, "a  b");
    app.step(Action::Save, None);
    assert_eq!(app.snippets[3].tags, vec!["a".to_string(), "".to_string(), "b".to_string()]);
    let mut app = editing(NewSnippetMode::TypeCode);
    app.step(Action::Save, None);
    assert_eq!(app.snippets[3].tags, vec!["".to_string()]);
}

#[test]
fn save_of_an_edited_snippet_replaces_the_old_one() {
    let mut app = listing();
    app.step(Action::CursorDown, None);
    app.step(Action::EditSelected, None);
    type_text(&mut app, "!");
    assert_eq!(app.step(Action::Save, None), Effect::Persist);
    assert_eq!(live(&app), vec![1, 2, 0]);
    assert_eq!(app.snippets[2].name, "Example Snippet #1!");
    assert_eq!(app.snippets[2].code, App::default().snippets[0].code);
    assert_eq!(pool(&app), vec![0]);
}

#[test]
fn editing_without_a_draft_falls_back_to_the_listing() {
    let mut app = listing();
    app.input_mode = InputMode::NewSnippet(NewSnippetMode::TypeCode);
    assert_eq!(app.step(Action::Insert('x'), None), Effect::Nothing);
    assert_eq!(app.input_mode, InputMode::Normal);
    assert!(app.current_snippet.is_none());
    let mut app = listing();
    app.input_mode = InputMode::NewSnippet(NewSnippetMode::TypeName);
    assert_eq!(app.step(Action::Save, None), Effect::Nothing);
    assert_eq!(live(&app), vec![0, 1, 2]);
}

#[test]
fn editing_ignores_actions_of_other_modes() {
    for action in [
        Action::NewSnippet,
        Action::Find,
        Action::CopySelected,
        Action::DeleteSelected,
        Action::EditSelected,
        Action::CursorUp,
        Action::CursorDown,
        Action::CursorClear,
        Action::Quit,
        Action::ConfirmYes,
        Action::ConfirmNo,
        Action::Ignore,
    ] {
        let mut app = editing(NewSnippetMode::TypeCode);
        type_text(&mut app, "x");
        assert_eq!(app.step(action, None), Effect::Nothing);
        assert_eq!(app.input_mode, InputMode::NewSnippet(NewSnippetMode::TypeCode));
        assert_eq!(app.current_snippet.as_ref().unwrap().code, "x");
        assert_eq!(app.found_snippets.state.selected(), None);
    }
}

#[test]
fn yes_deletes_the_snippet_and_clears_the_selection() {
    let mut app = listing();
    app.step(Action::CursorDown, None);
    app.step(Action::DeleteSelected, None);
    assert_eq!(app.input_mode, InputMode::ConfirmDelete(0));
    assert_eq!(app.step(Action::ConfirmYes, None), Effect::Persist);
    assert_eq!(app.input_mode, InputMode::Normal);
    assert_eq!(live(&app), vec![1, 2]);
    assert_eq!(pool(&app), vec![0]);
    assert_eq!(app.found_snippets.state.selected(), None);
    assert_eq!(app.found_snippets.items, app.snippets);
}

#[test]
fn yes_for_a_missing_snippet_changes_no_store() {
    let mut app = listing();
    app.input_mode = InputMode::ConfirmDelete(9);
    app.found_snippets.state.select(Some(1));
    assert_eq!(app.step(Action::ConfirmYes, None), Effect::Nothing);
    assert_eq!(app.input_mode, InputMode::Normal);
    assert_eq!(live(&app), vec![0, 1, 2]);
    assert!(pool(&app).is_empty());
    assert_eq!(app.found_snippets.state.selected(), None);
}

#[test]
fn no_keeps_the_snippet() {
    let mut app = listing();
    app.step(Action::CursorDown, None);
    app.step(Action::DeleteSelected, None);
    assert_eq!(app.step(Action::ConfirmNo, None), Effect::Nothing);
    assert_eq!(app.input_mode, InputMode::Normal);
    assert_eq!(live(&app), vec![0, 1, 2]);
    assert_eq!(app.found_snippets.state.selected(), Some(0));
}

#[test]
fn confirmation_ignores_every_other_action() {
    for action in [
        Action::NewSnippet,
        Action::Quit,
        Action::Cancel,
        Action::Confirm,
        Action::Insert('y'),
        Action::CursorDown,
        Action::Save,
        Action::Ignore,
    ] {
        let mut app = listing();
        app.input_mode = InputMode::ConfirmDelete(1);
        assert_eq!(app.step(action, None), Effect::Nothing);
        assert_eq!(app.input_mode, InputMode::ConfirmDelete(1));
        assert_eq!(live(&app), vec![0, 1, 2]);
        assert_eq!(app.found_snippets.state.selected(), None);
    }
}

#[test]
fn delete_then_new_reuses_the_identifier_through_the_machine() {
    let mut app = App::empty();
    app.insert_snippet(snippet(0, "zero", &["t"], ""));
    app.insert_snippet(snippet(1, "one", &["t"], ""));
    app.input_mode = InputMode::Normal;
    app.refresh();
    app.step(Action::CursorDown, None);
    app.step(Action::DeleteSelected, None);
    app.step(Action::ConfirmYes, None);
    assert_eq!(pool(&app), vec![0]);
    app.step(Action::NewSnippet, None);
    assert_eq!(app.current_snippet.as_ref().unwrap().idx, 0);
    app.step(Action::Save, None);
    assert_eq!(live(&app), vec![1, 0]);
    assert_eq!(app.snippets[1].name, "Unnamed Code Snippet");
    assert!(pool(&app).is_empty());
}

#[test]
fn edit_snippet_from_list_needs_a_selection() {
    let mut app = listing();
    app.edit_snippet_from_list();
    assert_eq!(app.input_mode, InputMode::Normal);
    assert!(app.current_snippet.is_none());
    app.found_snippets.state.select(Some(2));
    app.edit_snippet_from_list();
    assert_eq!(app.input_mode, InputMode::NewSnippet(NewSnippetMode::TypeName));
    assert_eq!(app.current_snippet, Some(app.snippets[2].clone()));
    assert_eq!(app.input, "example bro");
    let mut app = listing();
    app.found_snippets.state.select(Some(3));
    app.edit_snippet_from_list();
    assert_eq!(app.input_mode, InputMode::Normal);
}
