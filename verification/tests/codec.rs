use types_editor::error::EditorError;
use types_editor::model::{Field, FieldKey, TypeEntry};
use types_editor::parse::{parse_tokens, parse_types};
use types_editor::serialize::{document_plan, document_text, serialize_types};
use types_editor::xml_io::{XmlAttribute, XmlToken, XmlWrite};

fn element(name: &str, index: usize, value: &str) -> Field {
    Field { key: FieldKey::Element { name: name.to_string(), index }, value: value.to_string() }
}

fn attribute(element: &str, index: usize, attr: &str, value: &str) -> Field {
    Field {
        key: FieldKey::Attribute { element: element.to_string(), index, attr: attr.to_string() },
        value: value.to_string(),
    }
}

fn entry(name: &str, fields: Vec<Field>) -> TypeEntry {
    TypeEntry { name: name.to_string(), fields }
}

fn attr(name: &str, value: &str) -> XmlAttribute {
    XmlAttribute { name: name.to_string(), value: value.to_string() }
}

fn start(name: &str, attributes: Vec<XmlAttribute>) -> XmlToken {
    XmlToken::Start { name: name.to_string(), attributes }
}

fn end(name: &str) -> XmlToken {
    XmlToken::End { name: name.to_string() }
}

fn text(value: &str) -> XmlToken {
    XmlToken::Text(value.to_string())
}

fn open(name: &str, attributes: Vec<XmlAttribute>) -> XmlWrite {
    XmlWrite::Start { name: name.to_string(), attributes }
}

const BASIC: &str =
    "<types><type name=\"Foo\"><nominal>1</nominal><flags count_in_map=\"1\"/></type></types>";

#[test]
fn parse_reads_texts_and_attributes() {
    let types = parse_types(BASIC).unwrap();
    assert_eq!(
        types,
        vec![entry(
            "Foo",
            vec![element("nominal", 0, "1"), attribute("flags", 0, "count_in_map", "1")]
        )]
    );
}

#[test]
fn parse_numbers_repeated_elements() {
    let types = parse_types(
        "<types>\n  <type name=\"Item_A\">\n    <usage name=\"A\"/>\n    <usage name=\"A\"/>\n    <usage name=\"B\"/>\n    <category name=\"tools\"/>\n  </type>\n</types>",
    )
    .unwrap();
    assert_eq!(
        types,
        vec![entry(
            "Item_A",
            vec![
                attribute("usage", 0, "name", "A"),
                attribute("usage", 1, "name", "A"),
                attribute("usage", 2, "name", "B"),
                attribute("category", 0, "name", "tools"),
            ]
        )]
    );
}

#[test]
fn parse_restarts_the_numbering_in_every_type() {
    let types = parse_types(
        "<types><type name=\"A\"><usage name=\"x\"/><usage name=\"y\"/></type><type name=\"B\"><usage name=\"z\"/></type></types>",
    )
    .unwrap();
    assert_eq!(types.len(), 2);
    assert_eq!(types[1], entry("B", vec![attribute("usage", 0, "name", "z")]));
}

#[test]
fn parse_trims_text_and_drops_whitespace() {
    let types =
        parse_types("<types><type name=\"A\"><min>  5 \n</min><max>   </max><cost>\t7</cost></type></types>")
            .unwrap();
    assert_eq!(types, vec![entry("A", vec![element("min", 0, "5"), element("cost", 0, "7")])]);
}

#[test]
fn parse_keeps_attributes_before_text() {
    let types =
        parse_types("<types><type name=\"A\"><value unit=\"s\" kind=\"t\">30</value></type></types>").unwrap();
    assert_eq!(
        types,
        vec![entry(
            "A",
            vec![
                attribute("value", 0, "unit", "s"),
                attribute("value", 0, "kind", "t"),
                element("value", 0, "30"),
            ]
        )]
    );
}

#[test]
fn parse_gives_a_type_without_name_an_empty_name() {
    let types = parse_types("<types><type><min>1</min></type></types>").unwrap();
    assert_eq!(types, vec![entry("", vec![element("min", 0, "1")])]);
}

#[test]
fn parse_of_an_empty_root_gives_no_types() {
    assert_eq!(parse_types("<types></types>").unwrap(), Vec::<TypeEntry>::new());
    assert_eq!(parse_types("<types/>").unwrap(), Vec::<TypeEntry>::new());
}

#[test]
fn parse_unescapes_entities() {
    let types = parse_types("<types><type name=\"a&amp;b\"><min>&lt;3</min></type></types>").unwrap();
    assert_eq!(types, vec![entry("a&b", vec![element("min", 0, "<3")])]);
}

#[test]
fn parse_rejects_malformed_text() {
    assert!(matches!(parse_types("<types><type name=\"A\">"), Err(EditorError::InvalidData(_))));
    assert!(matches!(parse_types("<types><a></b></types>"), Err(EditorError::InvalidData(_))));
    assert!(matches!(parse_types(""), Err(EditorError::InvalidData(_))));
    assert!(matches!(parse_types("plain text"), Err(EditorError::InvalidData(_))));
}

#[test]
fn tokens_outside_a_type_make_no_fields() {
    let tokens = vec![
        XmlToken::Other,
        start("types", vec![attr("version", "1")]),
        text("stray"),
        start("note", vec![attr("lang", "en")]),
        text("ignored"),
        end("note"),
        start("type", vec![attr("id", "7"), attr("name", "A"), attr("name", "B")]),
        text("directly inside the type"),
        start("min", vec![]),
        text(" 4 "),
        end("min"),
        text("after the element"),
        end("type"),
        end("types"),
        XmlToken::Other,
    ];
    assert_eq!(parse_tokens(&tokens), vec![entry("A", vec![element("min", 0, "4")])]);
}

#[test]
fn tokens_count_elements_without_fields() {
    let tokens = vec![
        start("type", vec![attr("name", "A")]),
        start("usage", vec![]),
        end("usage"),
        start("usage", vec![attr("name", "Town")]),
        end("usage"),
        end("type"),
    ];
    assert_eq!(parse_tokens(&tokens), vec![entry("A", vec![attribute("usage", 1, "name", "Town")])]);
}

#[test]
fn tokens_of_an_unclosed_type_give_no_entry() {
    let tokens = vec![start("type", vec![attr("name", "A")]), start("min", vec![]), text("1"), end("min")];
    assert_eq!(parse_tokens(&tokens), Vec::<TypeEntry>::new());
}

#[test]
fn tokens_of_a_nested_element_lose_the_outer_text_after_it() {
    let tokens = vec![
        start("type", vec![attr("name", "A")]),
        start("outer", vec![]),
        text("before"),
        start("inner", vec![attr("k", "v")]),
        end("inner"),
        text("after"),
        end("outer"),
        end("type"),
    ];
    assert_eq!(
        parse_tokens(&tokens),
        vec![entry("A", vec![element("outer", 0, "before"), attribute("inner", 0, "k", "v")])]
    );
}

#[test]
fn plan_groups_fields_by_element_occurrence() {
    let types = vec![entry(
        "A",
        vec![
            attribute("flags", 0, "crafted", "0"),
            element("min", 0, "1"),
            attribute("flags", 0, "deloot", "1"),
            element("min", 0, "2"),
            attribute("usage", 1, "name", "Town"),
        ],
    )];
    assert_eq!(
        document_plan(&types),
        vec![
            open("types", vec![]),
            open("type", vec![attr("name", "A")]),
            open("flags", vec![attr("crafted", "0"), attr("deloot", "1")]),
            XmlWrite::End,
            open("min", vec![]),
            XmlWrite::Text(String::from("2")),
            XmlWrite::End,
            open("usage", vec![attr("name", "Town")]),
            XmlWrite::End,
            XmlWrite::End,
            XmlWrite::End,
        ]
    );
}

#[test]
fn plan_of_no_types_is_an_empty_root() {
    assert_eq!(document_plan(&Vec::new()), vec![open("types", vec![]), XmlWrite::End]);
}

#[test]
fn serialize_writes_elements_and_empty_elements() {
    let types = vec![entry(
        "Foo",
        vec![element("nominal", 0, "42"), attribute("flags", 0, "count_in_map", "1")],
    )];
    let xml = serialize_types(&types).unwrap();
    assert!(xml.contains("<types>"));
    assert!(xml.contains("<type name=\"Foo\">"));
    assert!(xml.contains("<nominal>42</nominal>"));
    assert!(xml.contains("<flags count_in_map=\"1\"/>"));
    assert!(xml.contains("</type>"));
    assert!(xml.trim_end().ends_with("</types>"));
}

#[test]
fn serialize_indents_and_declares_the_document() {
    let types = vec![entry("Foo", vec![element("nominal", 0, "42")])];
    assert_eq!(
        serialize_types(&types).unwrap(),
        "<?xml version=\"1.0\" encoding=\"UTF-8\"?>\n<types>\n  <type name=\"Foo\">\n    <nominal>42</nominal>\n  </type>\n</types>"
    );
}

#[test]
fn serialize_escapes_markup_in_values() {
    let types = vec![entry("a&b", vec![element("min", 0, "<3"), attribute("flags", 0, "x", "\"q\"")])];
    let xml = serialize_types(&types).unwrap();
    assert!(xml.contains("<type name=\"a&amp;b\">"));
    assert!(xml.contains("<min>&lt;3</min>"));
    assert_eq!(parse_types(&xml).unwrap(), types);
}

#[test]
fn round_trip_keeps_a_parsed_document() {
    let source = "<types>\n  <type name=\"Item_A\">\n    <nominal>10</nominal>\n    <lifetime>3600</lifetime>\n    <flags count_in_cargo=\"0\" count_in_map=\"1\"/>\n    <category name=\"tools\"/>\n    <usage name=\"Town\"/>\n    <usage name=\"Village\"/>\n  </type>\n  <type name=\"Item_B\">\n    <nominal>2</nominal>\n    <value unit=\"s\">30</value>\n  </type>\n</types>";
    let types = parse_types(source).unwrap();
    assert_eq!(types.len(), 2);
    let xml = serialize_types(&types).unwrap();
    assert_eq!(parse_types(&xml).unwrap(), types);
    assert_eq!(serialize_types(&parse_types(&xml).unwrap()).unwrap(), xml);
}

#[test]
fn round_trip_keeps_repeated_elements_in_order() {
    let source =
        "<types><type name=\"T\"><usage name=\"A\"/><usage name=\"A\"/><usage name=\"B\"/></type></types>";
    let types = parse_types(source).unwrap();
    let xml = serialize_types(&types).unwrap();
    let first = xml.find("<usage name=\"A\"/>").unwrap();
    let second = first + 1 + xml[first + 1..].find("<usage name=\"A\"/>").unwrap();
    let third = xml.find("<usage name=\"B\"/>").unwrap();
    assert!(first < second && second < third);
    assert_eq!(xml.matches("<usage").count(), 3);
    assert_eq!(parse_types(&xml).unwrap(), types);
}

#[test]
fn document_text_decodes_utf8() {
    assert_eq!(document_text("<a>é</a>".as_bytes().to_vec()), Ok(String::from("<a>é</a>")));
}

#[test]
fn document_text_rejects_bytes_that_are_not_utf8() {
    assert!(matches!(document_text(vec![0x3c, 0xff, 0x3e]), Err(EditorError::InvalidData(_))));
}
