use types_editor::document::{
    append_field, count_elements, insert_type, remove_field, remove_type, rename_type,
    set_field_key_name, set_field_value,
};
use types_editor::model::{Field, FieldKey, TypeEntry};

fn element(name: &str, index: usize, value: &str) -> Field {
    Field { key: FieldKey::Element { name: name.to_string(), index }, value: value.to_string() }
}

fn attribute(element: &str, index: usize, attr: &str, value: &str) -> Field {
    Field {
        key: FieldKey::Attribute { element: element.to_string(), index, attr: attr.to_string() },
        value: value.to_string(),
    }
}

fn document() -> Vec<TypeEntry> {
    vec![
        TypeEntry {
            name: String::from("A"),
            fields: vec![element("min", 0, "1"), attribute("flags", 0, "crafted", "0")],
        },
        TypeEntry { name: String::from("B"), fields: vec![element("max", 0, "9")] },
    ]
}

#[test]
fn insert_type_appends() {
    let mut types = document();
    insert_type(&mut types, TypeEntry { name: String::from("C"), fields: vec![] });
    assert_eq!(types.len(), 3);
    assert_eq!(types[2].name, "C");
    assert_eq!(types[..2], document()[..]);
}

#[test]
fn remove_type_moves_the_rest_up() {
    let mut types = document();
    remove_type(&mut types, 0);
    assert_eq!(types, document()[1..].to_vec());
}

#[test]
fn append_and_remove_field_touch_one_type() {
    let mut types = document();
    append_field(&mut types, 1, element("min", 0, "3"));
    assert_eq!(types[1].fields, vec![element("max", 0, "9"), element("min", 0, "3")]);
    assert_eq!(types[0], document()[0]);
    remove_field(&mut types, 1, 0);
    assert_eq!(types[1].fields, vec![element("min", 0, "3")]);
}

#[test]
fn rename_type_keeps_the_fields() {
    let mut types = document();
    rename_type(&mut types, 0, String::from("Z"));
    assert_eq!(types[0].name, "Z");
    assert_eq!(types[0].fields, document()[0].fields);
}

#[test]
fn set_field_value_keeps_the_key() {
    let mut types = document();
    set_field_value(&mut types, 0, 1, String::from("1"));
    assert_eq!(types[0].fields[1], attribute("flags", 0, "crafted", "1"));
    assert_eq!(types[0].fields[0], element("min", 0, "1"));
}

#[test]
fn setting_the_same_value_changes_nothing() {
    let mut types = document();
    set_field_value(&mut types, 0, 0, String::from("1"));
    set_field_value(&mut types, 1, 0, String::from("9"));
    assert_eq!(types, document());
}

#[test]
fn set_field_key_name_renames_element_or_attribute() {
    let mut types = document();
    set_field_key_name(&mut types, 0, 0, String::from("quantmin"));
    set_field_key_name(&mut types, 0, 1, String::from("deloot"));
    assert_eq!(
        types[0].fields,
        vec![element("quantmin", 0, "1"), attribute("flags", 0, "deloot", "0")]
    );
}

#[test]
fn count_elements_ignores_attributes_and_other_names() {
    let fields = vec![
        element("usage", 0, "a"),
        attribute("usage", 0, "usage", "b"),
        element("tag", 0, "c"),
        element("usage", 1, "d"),
    ];
    assert_eq!(count_elements(&fields, "usage"), 2);
    assert_eq!(count_elements(&fields, "tag"), 1);
    assert_eq!(count_elements(&fields, "none"), 0);
    assert_eq!(count_elements(&Vec::new(), "usage"), 0);
}
