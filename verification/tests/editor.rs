use types_editor::action::Action;
use types_editor::error::EditorError;
use types_editor::model::{default_fields, Field, FieldKey, TypeEntry};
use types_editor::selection::calculate_move_idx;
use types_editor::session::{EditorRequest, FileWrite};
use types_editor::state::{EditTarget, Editor, EditorFocus, FileSelection, FileSource};

fn element(name: &str, index: usize, value: &str) -> Field {
    Field { key: FieldKey::Element { name: name.to_string(), index }, value: value.to_string() }
}

fn attribute(element: &str, index: usize, attr: &str, value: &str) -> Field {
    Field {
        key: FieldKey::Attribute { element: element.to_string(), index, attr: attr.to_string() },
        value: value.to_string(),
    }
}

fn local(path: &str) -> FileSelection {
    FileSelection { path: path.to_string(), source: FileSource::Local }
}

fn loaded(content: &str) -> Editor {
    let mut editor = Editor::new();
    editor.load(local("types.xml"), content).unwrap();
    editor
}

fn with_types(names: &[&str]) -> Editor {
    let mut editor = Editor::new();
    let types = names
        .iter()
        .map(|name| TypeEntry { name: name.to_string(), fields: default_fields() })
        .collect();
    editor.load_types(local("types.xml"), types);
    editor
}

fn press(editor: &mut Editor, actions: &[Action]) {
    for action in actions {
        assert_eq!(editor.handle_action(*action), EditorRequest::Idle);
    }
}

fn replace_input(editor: &mut Editor, text: &str) {
    while !editor.input_buffer.is_empty() {
        press(editor, &[Action::Backspace]);
    }
    for c in text.chars() {
        press(editor, &[Action::Input(c)]);
    }
}

const BASIC: &str =
    "<types><type name=\"Foo\"><nominal>1</nominal><flags count_in_map=\"1\"/></type></types>";

#[test]
fn new_editor_is_empty() {
    let editor = Editor::new();
    assert!(editor.types.is_empty());
    assert_eq!(editor.path, None);
    assert_eq!(editor.focus, EditorFocus::TypeList);
    assert_eq!(editor.status, "Load a file to begin");
    assert!(!editor.is_editing());
    assert_eq!(editor.current_fields_len(), 0);
    assert!(editor.current_field().is_none());
    assert!(editor.current_fields().is_empty());
}

#[test]
fn load_resets_the_state() {
    let mut editor = with_types(&["A", "B"]);
    press(&mut editor, &[Action::Down, Action::ToggleSelect, Action::Right, Action::Add]);
    editor.load(local("other.xml"), BASIC).unwrap();
    assert_eq!(editor.path.as_deref(), Some("other.xml"));
    assert_eq!(editor.types.len(), 1);
    assert_eq!(editor.selected_type, 0);
    assert_eq!(editor.selected_field, 0);
    assert!(!editor.multi_select);
    assert!(editor.selected_types.is_empty());
    assert!(editor.undo_stack.is_empty());
    assert!(editor.redo_stack.is_empty());
    assert_eq!(editor.focus, EditorFocus::TypeList);
    assert_eq!(editor.editing_target, None);
    assert_eq!(editor.pending_add, None);
    assert_eq!(editor.input_buffer, "");
    assert_eq!(editor.status, "Loaded file");
}

#[test]
fn load_of_malformed_text_keeps_the_document() {
    let mut editor = loaded(BASIC);
    press(&mut editor, &[Action::Right]);
    let result = editor.load(local("broken.xml"), "<types><type>");
    match result {
        Err(EditorError::InvalidData(message)) => assert!(message.starts_with("XML parse error: ")),
        other => panic!("unexpected result {:?}", other),
    }
    assert_eq!(editor.path.as_deref(), Some("types.xml"));
    assert_eq!(editor.types.len(), 1);
    assert_eq!(editor.focus, EditorFocus::FieldList);
}

#[test]
fn basic_edit_and_save() {
    let mut editor = loaded(BASIC);
    press(&mut editor, &[Action::Right, Action::Activate]);
    assert!(editor.is_editing());
    assert_eq!(editor.editing_target, Some(EditTarget::FieldValue));
    assert_eq!(editor.input_buffer, "1");
    assert_eq!(editor.status, "Editing field value");
    replace_input(&mut editor, "42");
    press(&mut editor, &[Action::Activate]);
    assert_eq!(editor.focus, EditorFocus::FieldList);
    assert_eq!(editor.status, "Value updated");
    assert_eq!(editor.types[0].fields[0], element("nominal", 0, "42"));

    assert_eq!(editor.handle_action(Action::Save), EditorRequest::Save);
    let backup = editor.backup(Some(BASIC.to_string()));
    assert_eq!(
        backup,
        Some(FileWrite { path: String::from("types.xml.bak"), content: BASIC.to_string() })
    );
    let write = editor.save().unwrap().unwrap();
    assert_eq!(write.path, "types.xml");
    assert!(write.content.contains("<nominal>42</nominal>"));
    assert!(write.content.contains("<flags count_in_map=\"1\"/>"));
    editor.finish_save(Ok(()));
    assert_eq!(editor.status, "Saved types.xml");
}

#[test]
fn save_without_a_file_asks_for_nothing() {
    let mut editor = Editor::new();
    assert_eq!(editor.handle_action(Action::Save), EditorRequest::Idle);
    assert_eq!(editor.status, "No file loaded");
    assert_eq!(editor.save(), Ok(None));
    assert_eq!(editor.backup(Some(String::from("x"))), None);
}

#[test]
fn save_without_prior_content_writes_no_backup() {
    let editor = loaded(BASIC);
    assert_eq!(editor.backup(None), None);
}

#[test]
fn save_status_names_the_source_or_the_failure() {
    let mut editor = Editor::new();
    editor.load(
        FileSelection { path: String::from("/srv/types.xml"), source: FileSource::Remote },
        BASIC,
    )
    .unwrap();
    editor.finish_save(Ok(()));
    assert_eq!(editor.status, "Saved remote /srv/types.xml");
    editor.finish_save(Err(EditorError::Io(String::from("disk full"))));
    assert_eq!(editor.status, "Save failed: disk full");
    editor.finish_save(Err(EditorError::BackendBusy));
    assert_eq!(editor.status, "Save failed: SSH backend in use");
    editor.finish_save(Err(EditorError::NotFound));
    assert_eq!(editor.status, "Save failed: File not found");
    editor.finish_save(Err(EditorError::AuthFailed));
    assert_eq!(editor.status, "Save failed: SSH authentication failed");
    editor.finish_save(Err(EditorError::InvalidData(String::from("bad"))));
    assert_eq!(editor.status, "Save failed: bad");
}

#[test]
fn add_type_and_field() {
    let mut editor = Editor::new();
    press(&mut editor, &[Action::Add]);
    assert!(editor.is_editing());
    assert_eq!(editor.editing_target, Some(EditTarget::TypeName));
    assert_eq!(editor.input_buffer, "new_type");
    assert_eq!(editor.status, "Enter a name for the new type");
    replace_input(&mut editor, "Bar");
    press(&mut editor, &[Action::Activate]);
    assert_eq!(editor.focus, EditorFocus::TypeList);
    assert_eq!(editor.status, "Type renamed");
    assert_eq!(editor.types, vec![TypeEntry { name: String::from("Bar"), fields: default_fields() }]);

    press(&mut editor, &[Action::Right, Action::Add]);
    assert_eq!(editor.editing_target, Some(EditTarget::FieldName));
    assert_eq!(editor.input_buffer, "new_field");
    assert_eq!(editor.selected_field, 14);
    assert_eq!(editor.status, "Added new field; enter a name");
    replace_input(&mut editor, "custom");
    press(&mut editor, &[Action::Activate]);
    assert!(editor.is_editing());
    assert_eq!(editor.editing_target, Some(EditTarget::FieldValue));
    assert_eq!(editor.input_buffer, "");
    assert_eq!(editor.status, "Field renamed; edit value");
    replace_input(&mut editor, "7");
    press(&mut editor, &[Action::Activate]);
    assert_eq!(editor.focus, EditorFocus::FieldList);
    assert_eq!(editor.types[0].fields.len(), 15);
    assert_eq!(editor.types[0].fields[14], element("custom", 0, "7"));
}

#[test]
fn add_field_counts_the_fields_of_that_name() {
    let mut editor = with_types(&["A"]);
    press(&mut editor, &[Action::Right, Action::Add, Action::Cancel, Action::Add, Action::Cancel]);
    let fields = &editor.types[0].fields;
    assert_eq!(fields[14], element("new_field", 0, ""));
    assert_eq!(fields[15], element("new_field", 1, ""));
    assert_eq!(editor.status, "Edit cancelled");
    assert_eq!(editor.focus, EditorFocus::FieldList);
}

#[test]
fn add_attribute_joins_the_element_of_the_current_field() {
    let mut editor =
        loaded("<types><type name=\"A\"><nominal>1</nominal><flags count_in_map=\"1\"/></type></types>");
    press(&mut editor, &[Action::Right, Action::Down, Action::AddAttribute]);
    assert_eq!(editor.editing_target, Some(EditTarget::FieldName));
    assert_eq!(editor.input_buffer, "new_attr");
    assert_eq!(editor.status, "Added new attribute; enter a name");
    press(&mut editor, &[Action::Activate]);
    replace_input(&mut editor, "9");
    press(&mut editor, &[Action::Activate]);
    assert_eq!(editor.types[0].fields[2], attribute("flags", 0, "new_attr", "9"));
    let xml = editor.save().unwrap().unwrap().content;
    assert!(xml.contains("<flags count_in_map=\"1\" new_attr=\"9\"/>"));
}

#[test]
fn add_attribute_needs_the_field_list_and_a_field() {
    let mut editor = with_types(&["A"]);
    press(&mut editor, &[Action::AddAttribute]);
    assert_eq!(editor.types[0].fields.len(), 14);
    assert!(editor.undo_stack.is_empty());
    let mut empty = Editor::new();
    empty.load_types(local("t.xml"), vec![TypeEntry { name: String::from("A"), fields: vec![] }]);
    press(&mut empty, &[Action::Right, Action::AddAttribute]);
    assert!(empty.types[0].fields.is_empty());
    assert!(!empty.is_editing());
}

#[test]
fn multi_type_batch_add() {
    let mut editor = with_types(&["A", "B", "C"]);
    press(
        &mut editor,
        &[Action::ToggleSelect, Action::Down, Action::Down, Action::ToggleSelect, Action::Right, Action::Add],
    );
    assert_eq!(editor.selected_types, vec![0, 2]);
    assert_eq!(editor.status, "Enter a name for the new field");
    assert_eq!(editor.input_buffer, "new_field");
    replace_input(&mut editor, "tier");
    press(&mut editor, &[Action::Activate]);
    assert!(editor.is_editing());
    assert_eq!(editor.status, "Enter a value for the new field");
    assert_eq!(editor.input_buffer, "");
    replace_input(&mut editor, "2");
    press(&mut editor, &[Action::Activate]);
    assert_eq!(editor.status, "Added field to 2 types");
    assert_eq!(editor.focus, EditorFocus::FieldList);
    assert_eq!(editor.pending_add, None);
    assert_eq!(editor.types[0].fields.len(), 15);
    assert_eq!(editor.types[0].fields[14], element("tier", 0, "2"));
    assert_eq!(editor.types[2].fields[14], element("tier", 0, "2"));
    assert_eq!(editor.types[1].fields, default_fields());
    assert_eq!(editor.selected_field, 14);
    assert_eq!(editor.undo_stack.len(), 1);
}

#[test]
fn batch_add_counts_the_index_for_each_type() {
    let mut editor = with_types(&["A", "B"]);
    editor.types[1].fields.push(element("tier", 0, "1"));
    press(&mut editor, &[Action::ToggleSelect, Action::Down, Action::ToggleSelect, Action::Right, Action::Add]);
    replace_input(&mut editor, "tier");
    press(&mut editor, &[Action::Activate]);
    replace_input(&mut editor, "5");
    press(&mut editor, &[Action::Activate]);
    assert_eq!(editor.types[0].fields.last(), Some(&element("tier", 0, "5")));
    assert_eq!(editor.types[1].fields.last(), Some(&element("tier", 1, "5")));
}

#[test]
fn batch_add_of_an_attribute() {
    let mut editor = with_types(&["A", "B", "C"]);
    press(&mut editor, &[Action::Down, Action::ToggleSelect, Action::Down, Action::ToggleSelect, Action::Right]);
    for _ in 0..7 {
        press(&mut editor, &[Action::Down]);
    }
    press(&mut editor, &[Action::AddAttribute]);
    assert_eq!(editor.status, "Enter a name for the new attribute");
    assert_eq!(editor.input_buffer, "new_attr");
    replace_input(&mut editor, "rare");
    press(&mut editor, &[Action::Activate]);
    assert_eq!(editor.status, "Enter a value for the new attribute");
    replace_input(&mut editor, "1");
    press(&mut editor, &[Action::Activate]);
    assert_eq!(editor.status, "Added attribute to 2 types");
    assert_eq!(editor.types[0].fields, default_fields());
    assert_eq!(editor.types[1].fields.last(), Some(&attribute("flags", 0, "rare", "1")));
    assert_eq!(editor.types[2].fields.last(), Some(&attribute("flags", 0, "rare", "1")));
}

#[test]
fn multi_select_disables_single_edits() {
    let mut editor = with_types(&["A", "B"]);
    press(&mut editor, &[Action::ToggleSelect, Action::Activate]);
    assert_eq!(editor.status, "Multi-select: editing disabled");
    assert!(!editor.is_editing());
    press(&mut editor, &[Action::Down, Action::Copy]);
    assert_eq!(editor.status, "Multi-select: editing disabled");
    assert_eq!(editor.types.len(), 2);
    press(&mut editor, &[Action::Add]);
    assert_eq!(editor.status, "Multi-select: add fields from the field list");
    press(&mut editor, &[Action::AddAttribute]);
    assert_eq!(editor.status, "Multi-select: add attributes from the field list");
    assert!(editor.undo_stack.is_empty());
}

#[test]
fn toggle_select_enters_and_leaves_multi_select() {
    let mut editor = with_types(&["A", "B", "C"]);
    press(&mut editor, &[Action::Down, Action::Down, Action::ToggleSelect]);
    assert!(editor.multi_select);
    assert_eq!(editor.selected_types, vec![2]);
    assert_eq!(editor.status, "Selected 1 types");
    press(&mut editor, &[Action::Up, Action::Up, Action::ToggleSelect]);
    assert_eq!(editor.selected_types, vec![0, 2]);
    assert_eq!(editor.status, "Selected 2 types");
    press(&mut editor, &[Action::Down, Action::ToggleSelect]);
    assert_eq!(editor.selected_types, vec![0, 1, 2]);
    press(&mut editor, &[Action::ToggleSelect]);
    assert_eq!(editor.selected_types, vec![0, 2]);
    press(&mut editor, &[Action::Up, Action::ToggleSelect, Action::Down, Action::Down, Action::ToggleSelect]);
    assert!(!editor.multi_select);
    assert!(editor.selected_types.is_empty());
    assert_eq!(editor.status, "Multi-select cleared");
}

#[test]
fn toggle_select_needs_the_type_list() {
    let mut editor = with_types(&["A"]);
    press(&mut editor, &[Action::Right, Action::ToggleSelect]);
    assert!(!editor.multi_select);
    let mut empty = Editor::new();
    press(&mut empty, &[Action::ToggleSelect]);
    assert!(!empty.multi_select);
}

#[test]
fn cancel_clears_the_multi_selection() {
    let mut editor = with_types(&["A", "B"]);
    press(&mut editor, &[Action::ToggleSelect, Action::Down, Action::ToggleSelect, Action::Cancel]);
    assert!(!editor.multi_select);
    assert!(editor.selected_types.is_empty());
    assert_eq!(editor.status, "Multi-select cleared");
    press(&mut editor, &[Action::Up]);
    let status = editor.status.clone();
    press(&mut editor, &[Action::Cancel]);
    assert_eq!(editor.status, status);
}

#[test]
fn undo_then_redo() {
    let mut editor = loaded("<types><type name=\"X\"><nominal>5</nominal></type></types>");
    press(&mut editor, &[Action::Right, Action::Activate]);
    replace_input(&mut editor, "9");
    press(&mut editor, &[Action::Activate]);
    assert_eq!(editor.types[0].fields[0].value, "9");
    press(&mut editor, &[Action::Undo]);
    assert_eq!(editor.types[0].fields[0].value, "5");
    assert_eq!(editor.status, "Undid change");
    press(&mut editor, &[Action::Redo]);
    assert_eq!(editor.types[0].fields[0].value, "9");
    assert_eq!(editor.status, "Redid change");

    press(&mut editor, &[Action::Undo, Action::Activate]);
    replace_input(&mut editor, "7");
    press(&mut editor, &[Action::Activate]);
    assert!(editor.redo_stack.is_empty());
    press(&mut editor, &[Action::Redo]);
    assert_eq!(editor.status, "Nothing to redo");
    assert_eq!(editor.types[0].fields[0].value, "7");
}

#[test]
fn undo_on_an_empty_history_changes_nothing() {
    let mut editor = with_types(&["A"]);
    press(&mut editor, &[Action::Undo]);
    assert_eq!(editor.status, "Nothing to undo");
    assert_eq!(editor.types.len(), 1);
}

#[test]
fn undo_and_redo_are_symmetric_over_several_changes() {
    let mut editor = with_types(&["A", "B"]);
    let start = editor.snapshot();
    press(&mut editor, &[Action::Copy]);
    let one = editor.snapshot();
    press(&mut editor, &[Action::Up, Action::Delete]);
    let two = editor.snapshot();
    press(&mut editor, &[Action::Right, Action::Down, Action::Delete]);
    let three = editor.snapshot();
    assert_eq!(editor.undo_stack.len(), 3);

    press(&mut editor, &[Action::Undo]);
    assert_eq!(editor.snapshot().types, two.types);
    press(&mut editor, &[Action::Undo]);
    assert_eq!(editor.snapshot().types, one.types);
    press(&mut editor, &[Action::Undo]);
    assert_eq!(editor.snapshot(), start);
    press(&mut editor, &[Action::Redo, Action::Redo, Action::Redo]);
    assert_eq!(editor.snapshot(), three);
    assert!(editor.redo_stack.is_empty());
}

#[test]
fn snapshot_of_an_edit_shows_the_field_list() {
    let mut editor = with_types(&["A"]);
    press(&mut editor, &[Action::Activate]);
    assert!(editor.is_editing());
    assert_eq!(editor.snapshot().focus, EditorFocus::FieldList);
    press(&mut editor, &[Action::Cancel]);
    assert_eq!(editor.snapshot().focus, EditorFocus::TypeList);
}

#[test]
fn copy_type_appends_a_copy_and_selects_it() {
    let mut editor = with_types(&["A", "B"]);
    press(&mut editor, &[Action::Copy]);
    assert_eq!(editor.types.len(), 3);
    assert_eq!(editor.types[2].name, "A_copy");
    assert_eq!(editor.types[2].fields, default_fields());
    assert_eq!(editor.selected_type, 2);
    assert_eq!(editor.status, "Type copied");
}

#[test]
fn copy_field_appends_it_with_its_key() {
    let mut editor = with_types(&["A"]);
    press(&mut editor, &[Action::Right, Action::Down, Action::Copy]);
    assert_eq!(editor.types[0].fields.len(), 15);
    assert_eq!(editor.types[0].fields[14], element("lifetime", 0, ""));
    assert_eq!(editor.selected_field, 14);
    assert_eq!(editor.status, "Field copied");
}

#[test]
fn delete_type_clamps_the_cursor() {
    let mut editor = with_types(&["A", "B", "C"]);
    press(&mut editor, &[Action::Down, Action::Delete]);
    assert_eq!(editor.types.iter().map(|t| t.name.as_str()).collect::<Vec<_>>(), vec!["A", "C"]);
    assert_eq!(editor.selected_type, 1);
    assert_eq!(editor.status, "Type deleted");
    press(&mut editor, &[Action::Delete]);
    assert_eq!(editor.selected_type, 0);
    press(&mut editor, &[Action::Delete]);
    assert!(editor.types.is_empty());
    assert_eq!(editor.selected_type, 0);
    assert_eq!(editor.selected_field, 0);
    press(&mut editor, &[Action::Delete]);
    assert_eq!(editor.undo_stack.len(), 3);
}

#[test]
fn delete_field_clamps_the_cursor() {
    let mut editor =
        loaded("<types><type name=\"A\"><a>1</a><b>2</b><c>3</c></type></types>");
    press(&mut editor, &[Action::Right, Action::Up, Action::Delete]);
    assert_eq!(editor.types[0].fields, vec![element("a", 0, "1"), element("b", 0, "2")]);
    assert_eq!(editor.selected_field, 1);
    assert_eq!(editor.status, "Field deleted");
    press(&mut editor, &[Action::Up, Action::Delete]);
    assert_eq!(editor.types[0].fields, vec![element("b", 0, "2")]);
    assert_eq!(editor.selected_field, 0);
    press(&mut editor, &[Action::Delete]);
    assert!(editor.types[0].fields.is_empty());
    assert_eq!(editor.selected_field, 0);
    press(&mut editor, &[Action::Delete]);
    assert_eq!(editor.undo_stack.len(), 3);
}

#[test]
fn multi_delete_of_types() {
    let mut editor = with_types(&["A", "B", "C", "D"]);
    press(
        &mut editor,
        &[Action::Down, Action::ToggleSelect, Action::Down, Action::Down, Action::ToggleSelect, Action::Delete],
    );
    assert_eq!(editor.types.iter().map(|t| t.name.as_str()).collect::<Vec<_>>(), vec!["A", "C"]);
    assert_eq!(editor.selected_type, 1);
    assert_eq!(editor.selected_field, 0);
    assert!(!editor.multi_select);
    assert!(editor.selected_types.is_empty());
    assert_eq!(editor.status, "Deleted 2 types");
    press(&mut editor, &[Action::Undo]);
    assert_eq!(editor.types.len(), 4);
    assert_eq!(editor.selected_types, vec![1, 3]);
    assert!(editor.multi_select);
}

#[test]
fn multi_delete_of_a_field() {
    let mut editor = with_types(&["A", "B", "C"]);
    editor.types[1].fields.remove(1);
    press(
        &mut editor,
        &[Action::ToggleSelect, Action::Down, Action::ToggleSelect, Action::Up, Action::Right, Action::Down, Action::Delete],
    );
    assert_eq!(editor.status, "Deleted field from 1 types");
    assert_eq!(editor.types[0].fields.len(), 13);
    assert_eq!(editor.types[0].fields[1], element("restock", 0, ""));
    assert_eq!(editor.types[1].fields.len(), 13);
    assert_eq!(editor.types[2].fields, default_fields());
    assert_eq!(editor.selected_field, 1);
}

#[test]
fn multi_delete_removes_only_the_first_field_with_the_key() {
    let mut editor = with_types(&["A", "B"]);
    editor.types[1].fields.push(element("nominal", 0, "again"));
    press(
        &mut editor,
        &[Action::ToggleSelect, Action::Down, Action::ToggleSelect, Action::Right, Action::Delete],
    );
    assert_eq!(editor.status, "Deleted field from 2 types");
    assert_eq!(editor.types[0].fields.len(), 13);
    assert_eq!(editor.types[1].fields.len(), 14);
    assert_eq!(editor.types[1].fields[13], element("nominal", 0, "again"));
    assert_eq!(editor.types[1].fields[0], element("lifetime", 0, ""));
}

#[test]
fn navigation_wraps_by_one_and_stops_by_page() {
    let mut editor = with_types(&["A", "B", "C"]);
    press(&mut editor, &[Action::Up]);
    assert_eq!(editor.selected_type, 2);
    press(&mut editor, &[Action::Down]);
    assert_eq!(editor.selected_type, 0);
    press(&mut editor, &[Action::PgDown]);
    assert_eq!(editor.selected_type, 2);
    press(&mut editor, &[Action::PgDown]);
    assert_eq!(editor.selected_type, 2);
    press(&mut editor, &[Action::PgUp]);
    assert_eq!(editor.selected_type, 0);
    press(&mut editor, &[Action::PgUp]);
    assert_eq!(editor.selected_type, 0);
}

#[test]
fn navigation_in_the_field_list() {
    let mut editor = with_types(&["A", "B"]);
    press(&mut editor, &[Action::Right, Action::Up]);
    assert_eq!(editor.selected_field, 13);
    press(&mut editor, &[Action::Down, Action::PgDown]);
    assert_eq!(editor.selected_field, 10);
    press(&mut editor, &[Action::PgDown]);
    assert_eq!(editor.selected_field, 13);
    press(&mut editor, &[Action::Left, Action::Down]);
    assert_eq!(editor.selected_type, 1);
    assert_eq!(editor.selected_field, 0);
}

#[test]
fn move_index_formula() {
    assert_eq!(calculate_move_idx(4, 1, 5), 0);
    assert_eq!(calculate_move_idx(0, -1, 5), 4);
    assert_eq!(calculate_move_idx(2, 1, 5), 3);
    assert_eq!(calculate_move_idx(2, -1, 5), 1);
    assert_eq!(calculate_move_idx(0, 10, 5), 4);
    assert_eq!(calculate_move_idx(0, 10, 10), 9);
    assert_eq!(calculate_move_idx(3, 10, 20), 13);
    assert_eq!(calculate_move_idx(4, 10, 5), 4);
    assert_eq!(calculate_move_idx(0, -10, 5), 0);
    assert_eq!(calculate_move_idx(12, -10, 20), 2);
    assert_eq!(calculate_move_idx(3, -10, 20), 0);
    assert_eq!(calculate_move_idx(0, 1, 1), 0);
    assert_eq!(calculate_move_idx(0, -1, 1), 0);
    assert_eq!(calculate_move_idx(0, 1, 0), 0);
    assert_eq!(calculate_move_idx(0, isize::MIN, 3), 0);
    assert_eq!(calculate_move_idx(1, isize::MAX, 3), 2);
    assert_eq!(calculate_move_idx(2, 0, 3), 2);
}

#[test]
fn focus_moves_between_the_panes() {
    let mut editor = with_types(&["A"]);
    press(&mut editor, &[Action::Right]);
    assert_eq!(editor.focus, EditorFocus::FieldList);
    press(&mut editor, &[Action::Left]);
    assert_eq!(editor.focus, EditorFocus::TypeList);
    let mut empty = Editor::new();
    press(&mut empty, &[Action::Right]);
    assert_eq!(empty.focus, EditorFocus::TypeList);
}

#[test]
fn rename_a_type() {
    let mut editor = with_types(&["A"]);
    press(&mut editor, &[Action::Activate]);
    assert_eq!(editor.input_buffer, "A");
    assert_eq!(editor.status, "Editing type name");
    press(&mut editor, &[Action::Input('1'), Action::Activate]);
    assert_eq!(editor.types[0].name, "A1");
    assert_eq!(editor.focus, EditorFocus::TypeList);
    assert_eq!(editor.input_buffer, "");
}

#[test]
fn cancel_drops_the_captured_text() {
    let mut editor = with_types(&["A"]);
    press(&mut editor, &[Action::Activate, Action::Input('x'), Action::Cancel]);
    assert_eq!(editor.types[0].name, "A");
    assert_eq!(editor.status, "Edit cancelled");
    assert_eq!(editor.focus, EditorFocus::TypeList);
    assert!(editor.undo_stack.is_empty());
}

#[test]
fn editing_ignores_the_browsing_actions() {
    let mut editor = with_types(&["A", "B"]);
    press(&mut editor, &[Action::Activate]);
    let before = editor.snapshot();
    press(
        &mut editor,
        &[Action::Down, Action::Delete, Action::Add, Action::Undo, Action::Save, Action::ToggleSelect, Action::Noop],
    );
    assert_eq!(editor.snapshot(), before);
    assert!(editor.is_editing());
    assert_eq!(editor.input_buffer, "A");
}

#[test]
fn backspace_on_an_empty_buffer_does_nothing() {
    let mut editor = with_types(&["A"]);
    press(&mut editor, &[Action::Activate, Action::Backspace, Action::Backspace, Action::Input('Z'), Action::Activate]);
    assert_eq!(editor.types[0].name, "Z");
}

#[test]
fn setting_a_value_to_itself_keeps_the_document() {
    let mut editor = loaded(BASIC);
    let before = editor.types.clone();
    press(&mut editor, &[Action::Right, Action::Activate, Action::Activate]);
    assert_eq!(editor.types, before);
    assert_eq!(editor.status, "Value updated");
}

#[test]
fn selected_type_indices_follow_the_mode() {
    let mut editor = with_types(&["A", "B", "C"]);
    press(&mut editor, &[Action::Down]);
    assert_eq!(editor.selected_type_indices(), vec![1]);
    press(&mut editor, &[Action::ToggleSelect, Action::Up, Action::ToggleSelect, Action::Down, Action::Down]);
    assert_eq!(editor.selected_type_indices(), vec![0, 1]);
    assert_eq!(Editor::new().selected_type_indices(), Vec::<usize>::new());
}

#[test]
fn commands_keep_the_editor_well_formed() {
    let mut editor = with_types(&["A", "B", "C"]);
    assert!(editor.is_well_formed());
    let actions = [
        Action::Down,
        Action::ToggleSelect,
        Action::Right,
        Action::Add,
        Action::Activate,
        Action::Input('1'),
        Action::Activate,
        Action::Delete,
        Action::Left,
        Action::Delete,
        Action::Undo,
        Action::Undo,
        Action::Redo,
        Action::Copy,
        Action::Cancel,
        Action::Copy,
        Action::PgDown,
        Action::Delete,
        Action::Right,
        Action::AddAttribute,
        Action::Cancel,
        Action::Up,
        Action::Delete,
    ];
    for action in actions {
        editor.handle_action(action);
        assert!(editor.is_well_formed());
        assert!(editor.undo_stack.iter().all(|s| s.is_well_formed()));
    }
}

#[test]
fn a_cursor_or_selection_out_of_bounds_is_not_well_formed() {
    let mut editor = with_types(&["A", "B"]);
    editor.selected_type = 2;
    assert!(!editor.is_well_formed());
    editor.selected_type = 1;
    editor.selected_field = 14;
    assert!(!editor.is_well_formed());
    editor.selected_field = 13;
    assert!(editor.is_well_formed());
    editor.selected_types = vec![1];
    assert!(!editor.is_well_formed());
    editor.multi_select = true;
    assert!(editor.is_well_formed());
    editor.selected_types = vec![1, 0];
    assert!(!editor.is_well_formed());
    editor.selected_types = vec![0, 2];
    assert!(!editor.is_well_formed());
    editor.selected_types = vec![0, 1];
    assert!(editor.is_well_formed());
    editor.focus = EditorFocus::Editing;
    assert!(!editor.is_well_formed());
    editor.editing_target = Some(EditTarget::TypeName);
    assert!(editor.is_well_formed());
    let mut broken = editor.snapshot();
    broken.selected_type = 9;
    editor.redo_stack.push(broken);
    assert!(!editor.is_well_formed());
}

#[test]
fn an_unnumbered_document_does_not_come_back_the_same() {
    let source = "<types><type name=\"A\"><usage/><usage name=\"B\"/></type></types>";
    let mut editor = loaded(source);
    assert_eq!(editor.types[0].fields, vec![attribute("usage", 1, "name", "B")]);
    let xml = editor.save().unwrap().unwrap().content;
    editor.load(local("types.xml"), &xml).unwrap();
    assert_eq!(editor.types[0].fields, vec![attribute("usage", 0, "name", "B")]);
}
