use types_editor::model::{default_fields, field_label, Field, FieldKey, TypeEntry};

fn element(name: &str, index: usize) -> FieldKey {
    FieldKey::Element { name: name.to_string(), index }
}

fn attribute(element: &str, index: usize, attr: &str) -> FieldKey {
    FieldKey::Attribute { element: element.to_string(), index, attr: attr.to_string() }
}

#[test]
fn set_name_renames_an_element_key() {
    let mut key = element("nominal", 2);
    key.set_name(String::from("min"));
    assert_eq!(key, element("min", 2));
}

#[test]
fn set_name_renames_the_attribute_of_an_attribute_key() {
    let mut key = attribute("flags", 1, "crafted");
    key.set_name(String::from("deloot"));
    assert_eq!(key, attribute("flags", 1, "deloot"));
}

#[test]
fn element_name_of_both_kinds() {
    assert_eq!(element("usage", 3).get_element_name(), "usage");
    assert_eq!(attribute("flags", 0, "crafted").get_element_name(), "flags");
}

#[test]
fn group_is_element_and_index() {
    assert_eq!(element("usage", 3).group(), (String::from("usage"), 3));
    assert_eq!(attribute("flags", 1, "crafted").group(), (String::from("flags"), 1));
}

#[test]
fn same_key_compares_kind_names_and_index() {
    assert!(element("usage", 1).same_key(&element("usage", 1)));
    assert!(!element("usage", 1).same_key(&element("usage", 2)));
    assert!(!element("usage", 1).same_key(&element("tag", 1)));
    assert!(!element("name", 0).same_key(&attribute("name", 0, "name")));
    assert!(attribute("flags", 0, "crafted").same_key(&attribute("flags", 0, "crafted")));
    assert!(!attribute("flags", 0, "crafted").same_key(&attribute("flags", 0, "deloot")));
    assert!(!attribute("flags", 0, "crafted").same_key(&attribute("flag", 0, "crafted")));
}

#[test]
fn label_of_an_element_is_its_name() {
    assert_eq!(field_label(&element("nominal", 0)), "nominal");
}

#[test]
fn label_of_an_attribute_joins_element_and_attribute() {
    assert_eq!(field_label(&attribute("flags", 0, "count_in_map")), "flags @count_in_map");
}

#[test]
fn help_for_known_elements() {
    assert_eq!(
        element("nominal", 0).get_help_text(),
        "The nominal (wanted) amount in the server. Same as max is max is not used."
    );
    assert_eq!(
        element("usage", 1).get_help_text(),
        "The location class of where this item can spawn."
    );
    assert_eq!(element("tag", 0).get_help_text(), "The location class of where this item can spawn.");
    assert_eq!(element("flags", 0).get_help_text(), "");
}

#[test]
fn help_for_unknown_element() {
    assert_eq!(
        element("custom", 0).get_help_text(),
        "Unknown field - open a github issue with the field name."
    );
}

#[test]
fn help_for_attributes() {
    assert_eq!(
        attribute("category", 0, "name").get_help_text(),
        "The location class of where this item can spawn."
    );
    assert_eq!(
        attribute("flags", 0, "crafted").get_help_text(),
        "Boolean flag. Sets the total amount based on crafted count (map wide)\nIf flag is set to 1, item won't spawn if there are already a nominal number of items for this flag."
    );
    assert_eq!(
        attribute("flags", 0, "shiny").get_help_text(),
        "Unknown attribute - open a github issue. shiny"
    );
}

#[test]
fn default_fields_follow_the_template() {
    let fields = default_fields();
    assert_eq!(fields.len(), 14);
    let elements = ["nominal", "lifetime", "restock", "min", "quantmin", "quantmax", "cost"];
    for (i, name) in elements.iter().enumerate() {
        assert_eq!(fields[i], Field { key: element(name, 0), value: String::new() });
    }
    let flags = [
        ("count_in_cargo", "0"),
        ("count_in_hoarder", "0"),
        ("count_in_map", "1"),
        ("count_in_player", "0"),
        ("crafted", "0"),
        ("deloot", "0"),
    ];
    for (i, (attr, value)) in flags.iter().enumerate() {
        assert_eq!(
            fields[7 + i],
            Field { key: attribute("flags", 0, attr), value: value.to_string() }
        );
    }
    assert_eq!(fields[13], Field { key: attribute("category", 0, "name"), value: String::new() });
}

#[test]
fn clone_of_a_type_is_equal_and_independent() {
    let first = TypeEntry { name: String::from("A"), fields: default_fields() };
    let mut copy = first.clone();
    assert_eq!(copy, first);
    copy.fields[0].value = String::from("5");
    assert_eq!(first.fields[0].value, "");
}
