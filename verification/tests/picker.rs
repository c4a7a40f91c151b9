use types_editor::action::Action;
use types_editor::display::{entry_label, field_line};
use types_editor::listing::sort_entries;
use types_editor::model::{default_fields, Field, FieldKey, TypeEntry};
use types_editor::picker::{
    jump_index, next_index, previous_index, Entry, FilePicker, PickerMode, PickerRequest,
};
use types_editor::remote::{DirEntry, RemoteConfig};
use types_editor::state::{Editor, FileSelection, FileSource};

fn dir(name: &str) -> Entry {
    Entry { name: name.to_string(), is_dir: true }
}

fn file(name: &str) -> Entry {
    Entry { name: name.to_string(), is_dir: false }
}

fn listed(name: &str, is_dir: bool) -> DirEntry {
    DirEntry { name: name.to_string(), is_dir }
}

fn picker() -> FilePicker {
    let mut picker = FilePicker::new(None, String::from("ops"));
    picker.refresh_entries(
        &vec![listed("b.xml", false), listed("src", true), listed("A.xml", false)],
        true,
    );
    picker
}

#[test]
fn sort_puts_directories_first_and_ignores_case() {
    let sorted = sort_entries(&vec![
        file("beta.xml"),
        dir("Zoo"),
        file("Alpha.xml"),
        dir("apps"),
        file("alpha.txt"),
        dir(".."),
    ]);
    assert_eq!(
        sorted,
        vec![dir(".."), dir("apps"), dir("Zoo"), file("alpha.txt"), file("Alpha.xml"), file("beta.xml")]
    );
}

#[test]
fn sort_keeps_ties_in_the_order_they_came() {
    let sorted = sort_entries(&vec![file("README"), file("readme"), file("Readme"), file("a")]);
    assert_eq!(sorted, vec![file("a"), file("README"), file("readme"), file("Readme")]);
}

#[test]
fn sort_orders_a_prefix_before_the_longer_name() {
    let sorted = sort_entries(&vec![file("types.xml.bak"), file("types.xml"), file("types")]);
    assert_eq!(sorted, vec![file("types"), file("types.xml"), file("types.xml.bak")]);
    assert_eq!(sort_entries(&Vec::new()), Vec::<Entry>::new());
}

#[test]
fn sort_orders_by_code_point() {
    let sorted = sort_entries(&vec![file("é"), file("z"), file("_x"), file("Ä"), file("0")]);
    assert_eq!(sorted, vec![file("0"), file("_x"), file("z"), file("ä".to_uppercase().as_str()), file("é")]);
}

#[test]
fn refresh_shows_the_way_up_and_selects_the_first_line() {
    let picker = picker();
    assert_eq!(picker.entries, vec![dir(".."), dir("src"), file("A.xml"), file("b.xml")]);
    assert_eq!(picker.selected, Some(0));
    let mut root = FilePicker::new(None, String::new());
    root.refresh_entries(&vec![listed("etc", true)], false);
    assert_eq!(root.entries, vec![dir("etc")]);
    root.refresh_entries(&Vec::new(), false);
    assert!(root.entries.is_empty());
    assert_eq!(root.selected, Some(0));
}

#[test]
fn selection_wraps_by_line_and_stops_by_jump() {
    assert_eq!(next_index(Some(0), 3), Some(1));
    assert_eq!(next_index(Some(2), 3), Some(0));
    assert_eq!(next_index(None, 3), Some(0));
    assert_eq!(next_index(Some(1), 0), Some(1));
    assert_eq!(previous_index(Some(0), 3), Some(2));
    assert_eq!(previous_index(Some(2), 3), Some(1));
    assert_eq!(previous_index(None, 3), Some(2));
    assert_eq!(previous_index(None, 0), None);
    assert_eq!(jump_index(Some(1), 5, 4), Some(3));
    assert_eq!(jump_index(Some(1), 5, 20), Some(6));
    assert_eq!(jump_index(Some(7), -5, 20), Some(2));
    assert_eq!(jump_index(Some(3), -5, 20), Some(0));
    assert_eq!(jump_index(None, 5, 3), Some(2));
    assert_eq!(jump_index(None, 5, 0), None);
}

#[test]
fn browsing_moves_the_selection() {
    let mut picker = picker();
    assert_eq!(picker.handle_action(Action::Up), PickerRequest::Idle);
    assert_eq!(picker.selected, Some(3));
    picker.handle_action(Action::Down);
    assert_eq!(picker.selected, Some(0));
    picker.handle_action(Action::PgDown);
    assert_eq!(picker.selected, Some(3));
    picker.handle_action(Action::PgUp);
    assert_eq!(picker.selected, Some(0));
    assert_eq!(picker.handle_action(Action::Add), PickerRequest::Idle);
    assert_eq!(picker.selected, Some(0));
}

#[test]
fn enter_opens_directories_and_selects_files() {
    let mut picker = picker();
    assert_eq!(picker.handle_action(Action::Activate), PickerRequest::EnterDirectory(0));
    picker.handle_action(Action::Down);
    assert_eq!(picker.handle_action(Action::Activate), PickerRequest::EnterDirectory(1));
    picker.handle_action(Action::Down);
    assert_eq!(picker.handle_action(Action::Activate), PickerRequest::SelectFile(2));
    assert_eq!(picker.enter_directory_or_select_file(), PickerRequest::SelectFile(2));
    let mut empty = FilePicker::new(None, String::new());
    assert_eq!(empty.handle_action(Action::Activate), PickerRequest::Idle);
    empty.refresh_entries(&Vec::new(), false);
    assert_eq!(empty.handle_action(Action::Activate), PickerRequest::Idle);
}

#[test]
fn status_lines_of_the_picker() {
    let mut picker = picker();
    assert_eq!(picker.status, "Press Enter to open, q to quit");
    picker.file_selected("/tmp/types.xml");
    assert_eq!(picker.status, "Selected file: /tmp/types.xml (local)");
    picker.directory_entered();
    assert_eq!(picker.status, "");
    assert_eq!(
        picker.footer_text(),
        "Help: ? | Remote: r | Quit: q | Source: local | Status: No file selected"
    );
    picker.set_status(String::from("Failed to open file: nope"));
    assert_eq!(
        picker.footer_text(),
        "Help: ? | Remote: r | Quit: q | Source: local | Status: Failed to open file: nope"
    );
    picker.connect_failed("timeout");
    assert_eq!(picker.status, "SSH connect failed: timeout");
}

#[test]
fn remote_prompt_collects_settings_and_asks_to_connect() {
    let mut picker = picker();
    assert!(!picker.is_prompt());
    assert_eq!(picker.handle_action(Action::ToggleRemote), PickerRequest::Idle);
    assert!(picker.is_prompt());
    for c in "host".chars() {
        picker.handle_action(Action::Input(c));
    }
    picker.handle_action(Action::Tab);
    picker.handle_action(Action::Backspace);
    picker.handle_action(Action::Down);
    picker.handle_action(Action::Input('2'));
    picker.handle_action(Action::PgDown);
    picker.handle_action(Action::Input('p'));
    picker.handle_action(Action::Up);
    picker.handle_action(Action::PgUp);
    picker.handle_action(Action::Input('s'));
    let expected = RemoteConfig {
        host: String::from("host"),
        port: 222,
        username: String::from("ops"),
        password: Some(String::from("p")),
        key_path: None,
        passphrase: None,
    };
    assert_eq!(picker.handle_action(Action::Activate), PickerRequest::Connect(expected.clone()));
    assert!(picker.is_prompt());
    picker.connected(expected.clone());
    assert!(!picker.is_prompt());
    assert_eq!(picker.source, FileSource::Remote);
    assert_eq!(picker.backend_label(), "ssh");
    assert_eq!(picker.status, "Connected via SSH");
    assert_eq!(picker.remote_config, Some(expected));

    assert_eq!(picker.handle_action(Action::ToggleRemote), PickerRequest::ListLocal);
    assert_eq!(picker.source, FileSource::Local);
    assert_eq!(picker.status, "Switched to local");
    picker.handle_action(Action::ToggleRemote);
    match &picker.mode {
        PickerMode::RemotePrompt(form) => {
            assert_eq!(form.host, "host");
            assert_eq!(form.port, "222");
            assert_eq!(form.password, "p");
            assert_eq!(
                form.lines(),
                vec![
                    "> Host: host",
                    "  User: ops",
                    "  Port: 222",
                    "  Password (optional): p",
                    "  Key Path (optional): ",
                    "  Passphrase (optional): ",
                ]
            );
        }
        PickerMode::Browse => panic!("the form should be open"),
    }
    picker.handle_action(Action::Cancel);
    assert!(!picker.is_prompt());
    assert_eq!(picker.status, "SSH connect cancelled");
}

#[test]
fn labels_of_entries_and_fields() {
    assert_eq!(entry_label(&dir("src")), "src/");
    assert_eq!(entry_label(&dir("..")), "..");
    assert_eq!(entry_label(&file("a.xml")), "a.xml");
    let text = Field {
        key: FieldKey::Element { name: String::from("nominal"), index: 0 },
        value: String::from("10"),
    };
    assert_eq!(field_line(&text), "nominal: 10");
    let flag = Field {
        key: FieldKey::Attribute {
            element: String::from("flags"),
            index: 0,
            attr: String::from("crafted"),
        },
        value: String::from("0"),
    };
    assert_eq!(field_line(&flag), "flags @crafted: 0");
}

#[test]
fn texts_of_the_editor_panes() {
    let mut editor = Editor::new();
    assert_eq!(editor.header_text(), "No file loaded");
    assert_eq!(editor.tips_text(), "");
    assert_eq!(editor.footer_text(), "Help: ? | Quit: q | Status: Load a file to begin");
    editor.load_types(
        FileSelection { path: String::from("/srv/types.xml"), source: FileSource::Remote },
        vec![
            TypeEntry { name: String::from("A"), fields: default_fields() },
            TypeEntry { name: String::from("B"), fields: vec![] },
        ],
    );
    assert_eq!(editor.header_text(), "Editing: /srv/types.xml (ssh)");
    assert_eq!(editor.type_label(0), "A");
    assert_eq!(
        editor.tips_text(),
        "The nominal (wanted) amount in the server. Same as max is max is not used."
    );
    editor.handle_action(Action::ToggleSelect);
    assert_eq!(editor.type_label(0), "[x] A");
    assert_eq!(editor.type_label(1), "[ ] B");
    assert_eq!(
        editor.footer_text(),
        "Help: ? | Quit: q | Status: Selected 1 types | Multi-select: 1"
    );
    editor.handle_action(Action::Right);
    editor.handle_action(Action::Add);
    assert_eq!(editor.input_title(), "Field Name");
    assert_eq!(editor.footer_text(), "Help: ? | Quit: q | Status: editing (new_field)");
    assert_eq!(editor.input_text(), "Field Name\n\nnew_field\n\nEnter to accept, Esc to cancel");
    editor.handle_action(Action::Activate);
    assert_eq!(editor.input_title(), "Field Value");
    editor.handle_action(Action::Cancel);
    assert_eq!(editor.input_title(), "Input");
    editor.handle_action(Action::AddAttribute);
    assert_eq!(editor.input_title(), "Attribute Name");
    editor.handle_action(Action::Activate);
    assert_eq!(editor.input_title(), "Attribute Value");
    editor.handle_action(Action::Cancel);
    editor.handle_action(Action::Left);
    editor.handle_action(Action::Cancel);
    editor.handle_action(Action::Activate);
    assert_eq!(editor.input_title(), "Type Name");
}
