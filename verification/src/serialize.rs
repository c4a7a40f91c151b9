//! Writing a document: from type entries to the writer's instructions, and
//! on to text.

use vstd::prelude::*;
use vstd::utf8::{decode_utf8, valid_utf8};
use crate::error::EditorError;
use crate::model::{Field, FieldKey, FieldView, KeyView, TypeEntry, TypeView, fields_view, types_view};
use crate::text::str_equal;
use crate::xml_io::{
    AttrView,
    WriteView,
    XmlAttribute,
    XmlWrite,
    attrs_view,
    utf8_text,
    write_events,
    writer_error_text,
    writes_view,
    xml_bytes,
};

verus! {

/// The element occurrence that a key belongs to: element name and index.
pub open spec fn group_of(key: KeyView) -> (Seq<char>, nat) {
    match key {
        KeyView::Element { name, index } => (name, index),
        KeyView::Attribute { element, index, .. } => (element, index),
    }
}

/// The element occurrences that the fields refer to, each once, in the
/// order in which they are first seen.
pub open spec fn group_order(fields: Seq<FieldView>) -> Seq<(Seq<char>, nat)>
    decreases fields.len(),
{
    if fields.len() == 0 {
        Seq::empty()
    } else {
        let before = group_order(fields.drop_last());
        let group = group_of(fields.last().key);
        if before.contains(group) {
            before
        } else {
            before.push(group)
        }
    }
}

/// The attributes that the fields give to one element occurrence, in field
/// order.
pub open spec fn group_attributes(fields: Seq<FieldView>, group: (Seq<char>, nat)) -> Seq<AttrView>
    decreases fields.len(),
{
    if fields.len() == 0 {
        Seq::empty()
    } else {
        let before = group_attributes(fields.drop_last(), group);
        match fields.last().key {
            KeyView::Attribute { element, index, attr } => if (element, index) == group {
                before.push(AttrView { name: attr, value: fields.last().value })
            } else {
                before
            },
            KeyView::Element { .. } => before,
        }
    }
}

/// The text that the fields give to one element occurrence: the value of
/// the last element field that refers to it, if there is one.
pub open spec fn group_text(fields: Seq<FieldView>, group: (Seq<char>, nat)) -> Option<Seq<char>>
    decreases fields.len(),
{
    if fields.len() == 0 {
        None
    } else {
        match fields.last().key {
            KeyView::Element { name, index } => if (name, index) == group {
                Some(fields.last().value)
            } else {
                group_text(fields.drop_last(), group)
            },
            KeyView::Attribute { .. } => group_text(fields.drop_last(), group),
        }
    }
}

/// The instructions that write one element occurrence: its start tag with
/// its attributes, its text if it has one, and its end.
pub open spec fn element_events(fields: Seq<FieldView>, group: (Seq<char>, nat)) -> Seq<WriteView> {
    let start = WriteView::Start { name: group.0, attributes: group_attributes(fields, group) };
    match group_text(fields, group) {
        Some(text) => seq![start, WriteView::Text(text), WriteView::End],
        None => seq![start, WriteView::End],
    }
}

/// The instructions that write the given element occurrences, in order.
pub open spec fn groups_events(fields: Seq<FieldView>, groups: Seq<(Seq<char>, nat)>) -> Seq<WriteView>
    decreases groups.len(),
{
    if groups.len() == 0 {
        Seq::empty()
    } else {
        groups_events(fields, groups.drop_last()) + element_events(fields, groups.last())
    }
}

/// The instructions that write one type entry.
pub open spec fn type_events(entry: TypeView) -> Seq<WriteView> {
    seq![
        WriteView::Start {
            name: "type"@,
            attributes: seq![AttrView { name: "name"@, value: entry.name }],
        },
    ] + groups_events(entry.fields, group_order(entry.fields)) + seq![WriteView::End]
}

/// The instructions that write the given type entries, in order.
pub open spec fn types_events(types: Seq<TypeView>) -> Seq<WriteView>
    decreases types.len(),
{
    if types.len() == 0 {
        Seq::empty()
    } else {
        types_events(types.drop_last()) + type_events(types.last())
    }
}

/// The instructions that write a whole document: the root element `types`
/// around the type entries.
pub open spec fn document_events(types: Seq<TypeView>) -> Seq<WriteView> {
    seq![WriteView::Start { name: "types"@, attributes: Seq::empty() }] + types_events(types)
        + seq![WriteView::End]
}

/// What has been gathered for one element occurrence.
struct ElementData {
    name: String,
    index: usize,
    attrs: Vec<XmlAttribute>,
    text: Option<String>,
}

impl ElementData {
    spec fn group(self) -> (Seq<char>, nat) {
        (self.name@, self.index as nat)
    }

    /// This record holds what `fields` give to its element occurrence.
    spec fn gathers(self, fields: Seq<FieldView>) -> bool {
        &&& attrs_view(self.attrs@) == group_attributes(fields, self.group())
        &&& match self.text {
            Some(text) => group_text(fields, self.group()) == Some(text@),
            None => group_text(fields, self.group()) is None,
        }
    }
}

/// The element occurrences of the records, in order.
spec fn groups_of(records: Seq<ElementData>) -> Seq<(Seq<char>, nat)> {
    records.map_values(|d: ElementData| d.group())
}

/// Where the record of an element occurrence stands, if it has one.
fn find_group(records: &Vec<ElementData>, name: &str, index: usize) -> (r: Option<usize>)
    ensures
        match r {
            Some(at) => at < records@.len() && groups_of(records@)[at as int] == (name@, index as nat),
            None => !groups_of(records@).contains((name@, index as nat)),
        },
{
    let mut i: usize = 0;
    while i < records.len()
        invariant
            i <= records.len(),
            forall|k: int| 0 <= k < i ==> groups_of(records@)[k] != (name@, index as nat),
        decreases records.len() - i,
    {
        if records[i].index == index && str_equal(records[i].name.as_str(), name) {
            return Some(i);
        }
        i += 1;
    }
    None
}

/// Gathers, for each element occurrence that the fields refer to, its
/// attributes and its text.
fn gather(fields: &Vec<Field>) -> (r: Vec<ElementData>)
    ensures
        groups_of(r@) == group_order(fields_view(fields@)),
        forall|k: int| 0 <= k < r@.len() ==> (#[trigger] r@[k]).gathers(fields_view(fields@)),
{
    let ghost all = fields_view(fields@);
    let mut records: Vec<ElementData> = Vec::new();
    let mut i: usize = 0;
    assert(all.take(0) =~= Seq::<FieldView>::empty());
    assert(groups_of(records@) =~= group_order(all.take(0)));
    while i < fields.len()
        invariant
            i <= fields.len(),
            all == fields_view(fields@),
            groups_of(records@) == group_order(all.take(i as int)),
            forall|k: int| 0 <= k < records@.len() ==> (#[trigger] records@[k]).gathers(all.take(i as int)),
        decreases fields.len() - i,
    {
        let ghost seen = all.take(i as int);
        let ghost next = all.take(i as int + 1);
        let ghost before = records@;
        assert(next.drop_last() =~= seen);
        assert(next.last() == fields@[i as int]@);
        let field = &fields[i];
        let (name, index) = match &field.key {
            FieldKey::Element { name, index } => (name, *index),
            FieldKey::Attribute { element, index, .. } => (element, *index),
        };
        assert((name@, index as nat) == group_of(field@.key));
        let at = match find_group(&records, name.as_str(), index) {
            Some(at) => at,
            None => {
                records.push(ElementData { name: name.clone(), index, attrs: Vec::new(), text: None });
                assert(groups_of(records@) =~= groups_of(before).push((name@, index as nat)));
                assert(attrs_view(Seq::<XmlAttribute>::empty()) =~= Seq::<AttrView>::empty());
                proof {
                    lemma_absent_group(seen, (name@, index as nat));
                }
                records.len() - 1
            },
        };
        assert(groups_of(records@) == group_order(next));
        let ghost middle = records@;
        assert(middle[at as int].gathers(seen));
        assert(middle[at as int].group() == (name@, index as nat));
        match &field.key {
            FieldKey::Element { .. } => {
                records[at].text = Some(field.value.clone());
            },
            FieldKey::Attribute { attr, .. } => {
                records[at].attrs.push(XmlAttribute { name: attr.clone(), value: field.value.clone() });
                assert(attrs_view(records@[at as int].attrs@) =~= attrs_view(middle[at as int].attrs@).push(
                    AttrView { name: attr@, value: field.value@ },
                ));
            },
        }
        assert(records@[at as int].group() == middle[at as int].group());
        assert(records@[at as int].gathers(next));
        assert(groups_of(records@) =~= groups_of(middle));
        assert forall|k: int| 0 <= k < records@.len() implies (#[trigger] records@[k]).gathers(next) by {
            if k != at {
                assert(records@[k] == middle[k]);
                assert(middle[k].gathers(seen));
                assert(groups_of(middle)[k] == middle[k].group());
                assert(groups_of(middle)[at as int] == middle[at as int].group());
                lemma_order_distinct(next);
                assert(middle[k].group() != (name@, index as nat));
            }
        }
        i += 1;
    }
    assert(all.take(fields.len() as int) =~= all);
    records
}

/// An element occurrence that is not in the group order has no attributes
/// and no text.
proof fn lemma_absent_group(fields: Seq<FieldView>, group: (Seq<char>, nat))
    requires
        !group_order(fields).contains(group),
    ensures
        group_attributes(fields, group) == Seq::<AttrView>::empty(),
        group_text(fields, group) is None,
    decreases fields.len(),
{
    if fields.len() > 0 {
        let before = group_order(fields.drop_last());
        let last = group_of(fields.last().key);
        if before.contains(last) {
            assert(group_order(fields) == before);
        } else {
            assert(group_order(fields) == before.push(last));
            assert(before.push(last)[before.len() as int] == last);
            assert forall|g: (Seq<char>, nat)| before.contains(g) implies before.push(last).contains(g) by {
                let k = choose|k: int| 0 <= k < before.len() && before[k] == g;
                assert(before.push(last)[k] == g);
            }
        }
        assert(last != group);
        lemma_absent_group(fields.drop_last(), group);
    }
}

/// The group order holds no element occurrence twice.
pub proof fn lemma_order_distinct(fields: Seq<FieldView>)
    ensures
        forall|i: int, j: int|
            0 <= i < j < group_order(fields).len() ==> group_order(fields)[i] != group_order(fields)[j],
    decreases fields.len(),
{
    if fields.len() > 0 {
        lemma_order_distinct(fields.drop_last());
        let before = group_order(fields.drop_last());
        let last = group_of(fields.last().key);
        if !before.contains(last) {
            assert forall|i: int, j: int| 0 <= i < j < before.push(last).len() implies before.push(
                last,
            )[i] != before.push(last)[j] by {
                if j == before.len() {
                    assert(before[i] != last);
                }
            }
        }
    }
}

/// Appends the instructions that write the gathered element occurrences.
fn push_groups(events: &mut Vec<XmlWrite>, records: Vec<ElementData>, Ghost(fields): Ghost<Seq<FieldView>>)
    requires
        forall|k: int| 0 <= k < records@.len() ==> (#[trigger] records@[k]).gathers(fields),
    ensures
        writes_view(final(events)@) == writes_view(old(events)@) + groups_events(
            fields,
            groups_of(records@),
        ),
{
    let ghost groups = groups_of(records@);
    let ghost all = records@;
    let mut records = records;
    let mut i: usize = 0;
    assert(groups.take(0) =~= Seq::<(Seq<char>, nat)>::empty());
    assert(writes_view(events@) =~= writes_view(old(events)@) + groups_events(fields, groups.take(0)));
    while i < records.len()
        invariant
            i <= all.len(),
            records@.len() == all.len(),
            groups == groups_of(all),
            forall|k: int| i <= k < all.len() ==> records@[k] == all[k],
            forall|k: int| 0 <= k < all.len() ==> (#[trigger] all[k]).gathers(fields),
            writes_view(events@) == writes_view(old(events)@) + groups_events(fields, groups.take(i as int)),
        decreases all.len() - i,
    {
        assert(records@[i as int] == all[i as int]);
        assert(groups.take(i as int + 1).drop_last() =~= groups.take(i as int));
        assert(groups.take(i as int + 1).last() == all[i as int].group());
        let ghost before = events@;
        // Each record is used once, so its parts are moved out of it.
        let mut name = String::new();
        let mut attributes: Vec<XmlAttribute> = Vec::new();
        core::mem::swap(&mut name, &mut records[i].name);
        core::mem::swap(&mut attributes, &mut records[i].attrs);
        let text = records[i].text.take();
        events.push(XmlWrite::Start { name, attributes });
        match text {
            Some(text) => {
                events.push(XmlWrite::Text(text));
                events.push(XmlWrite::End);
                assert(writes_view(events@) =~= writes_view(before) + element_events(
                    fields,
                    all[i as int].group(),
                ));
            },
            None => {
                events.push(XmlWrite::End);
                assert(writes_view(events@) =~= writes_view(before) + element_events(
                    fields,
                    all[i as int].group(),
                ));
            },
        }
        i += 1;
    }
    assert(groups.take(all.len() as int) =~= groups);
}

/// The instructions that write the given type entries as one document.
pub fn document_plan(types: &Vec<TypeEntry>) -> (r: Vec<XmlWrite>)
    ensures
        writes_view(r@) == document_events(types_view(types@)),
{
    let ghost all = types_view(types@);
    let mut events: Vec<XmlWrite> = Vec::new();
    events.push(XmlWrite::Start { name: "types".to_owned(), attributes: Vec::new() });
    assert(attrs_view(Seq::<XmlAttribute>::empty()) =~= Seq::<AttrView>::empty());
    let ghost head = seq![WriteView::Start { name: "types"@, attributes: Seq::<AttrView>::empty() }];
    assert(all.take(0) =~= Seq::<TypeView>::empty());
    assert(writes_view(events@) =~= head + types_events(all.take(0)));
    let mut i: usize = 0;
    while i < types.len()
        invariant
            i <= types.len(),
            all == types_view(types@),
            head == seq![WriteView::Start { name: "types"@, attributes: Seq::<AttrView>::empty() }],
            writes_view(events@) == head + types_events(all.take(i as int)),
        decreases types.len() - i,
    {
        let entry = &types[i];
        assert(all.take(i as int + 1).drop_last() =~= all.take(i as int));
        assert(all.take(i as int + 1).last() == entry@);
        let ghost before = events@;
        let mut attributes: Vec<XmlAttribute> = Vec::new();
        attributes.push(XmlAttribute { name: "name".to_owned(), value: entry.name.clone() });
        assert(attrs_view(attributes@) =~= seq![AttrView { name: "name"@, value: entry.name@ }]);
        events.push(XmlWrite::Start { name: "type".to_owned(), attributes });
        let ghost opened = events@;
        let records = gather(&entry.fields);
        push_groups(&mut events, records, Ghost(entry@.fields));
        let ghost filled = events@;
        events.push(XmlWrite::End);
        assert(writes_view(events@) =~= writes_view(before) + type_events(entry@)) by {
            assert(writes_view(opened) =~= writes_view(before).push(
                WriteView::Start {
                    name: "type"@,
                    attributes: seq![AttrView { name: "name"@, value: entry.name@ }],
                },
            ));
            assert(writes_view(events@) =~= writes_view(filled).push(WriteView::End));
        }
        i += 1;
    }
    assert(all.take(types.len() as int) =~= all);
    let ghost body = events@;
    events.push(XmlWrite::End);
    assert(writes_view(events@) =~= writes_view(body).push(WriteView::End));
    events
}

/// The text that the written bytes stand for.
pub fn document_text(bytes: Vec<u8>) -> (r: Result<String, EditorError>)
    ensures
        valid_utf8(bytes@) ==> (r matches Ok(text) && text@ == decode_utf8(bytes@)),
        !valid_utf8(bytes@) ==> (r matches Err(EditorError::InvalidData(message)) && message@
            == "Serialized document is not valid UTF-8"@),
{
    match utf8_text(bytes) {
        Some(text) => Ok(text),
        None => Err(EditorError::InvalidData("Serialized document is not valid UTF-8".to_owned())),
    }
}

/// Writes the type entries as an indented XML document.
pub fn serialize_types(types: &Vec<TypeEntry>) -> (r: Result<String, EditorError>)
    ensures
        match xml_bytes(document_events(types_view(types@))) {
            Some(bytes) => if valid_utf8(bytes) {
                r matches Ok(text) && text@ == decode_utf8(bytes)
            } else {
                r matches Err(EditorError::InvalidData(_))
            },
            None => r matches Err(EditorError::Io(_)),
        },
{
    let events = document_plan(types);
    match write_events(&events) {
        Ok(bytes) => document_text(bytes),
        Err(error) => Err(EditorError::Io(writer_error_text(&error))),
    }
}

} // verus!
