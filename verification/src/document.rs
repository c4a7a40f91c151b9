//! The document: an ordered list of type entries, and the primitive changes
//! that commands are made of.

use vstd::prelude::*;
use crate::model::{Field, FieldKey, FieldView, KeyView, TypeEntry, TypeView, fields_view, types_view};
use crate::text::str_equal;

verus! {

/// The document with `entry` appended.
pub open spec fn with_type(types: Seq<TypeView>, entry: TypeView) -> Seq<TypeView> {
    types.push(entry)
}

/// The document without the type entry at position `at`.
pub open spec fn without_type(types: Seq<TypeView>, at: int) -> Seq<TypeView> {
    types.remove(at)
}

/// The document with `fields` as the fields of the type entry at `at`.
pub open spec fn with_type_fields(types: Seq<TypeView>, at: int, fields: Seq<FieldView>) -> Seq<TypeView> {
    types.update(at, TypeView { name: types[at].name, fields })
}

/// The document with `field` appended to the type entry at `at`.
pub open spec fn with_field(types: Seq<TypeView>, at: int, field: FieldView) -> Seq<TypeView> {
    with_type_fields(types, at, types[at].fields.push(field))
}

/// The document without field `field_at` of the type entry at `at`.
pub open spec fn without_field(types: Seq<TypeView>, at: int, field_at: int) -> Seq<TypeView> {
    with_type_fields(types, at, types[at].fields.remove(field_at))
}

/// The document with the type entry at `at` renamed.
pub open spec fn with_type_name(types: Seq<TypeView>, at: int, name: Seq<char>) -> Seq<TypeView> {
    types.update(at, TypeView { name, fields: types[at].fields })
}

/// The document with a new value in field `field_at` of the type entry at
/// `at`.
pub open spec fn with_field_value(types: Seq<TypeView>, at: int, field_at: int, value: Seq<char>) -> Seq<
    TypeView,
> {
    let field = types[at].fields[field_at];
    with_type_fields(types, at, types[at].fields.update(field_at, FieldView { key: field.key, value }))
}

/// The document with a new name component in the key of field `field_at`
/// of the type entry at `at`.
pub open spec fn with_field_key_name(types: Seq<TypeView>, at: int, field_at: int, name: Seq<char>) -> Seq<
    TypeView,
> {
    let field = types[at].fields[field_at];
    with_type_fields(
        types,
        at,
        types[at].fields.update(field_at, FieldView { key: field.key.with_name(name), value: field.value }),
    )
}

/// Whether a field is the text of an element called `name`.
pub open spec fn is_element_named(field: FieldView, name: Seq<char>) -> bool {
    field.key matches KeyView::Element { name: n, .. } && n == name
}

/// How many of the fields are the text of an element called `name`.
pub open spec fn element_count(fields: Seq<FieldView>, name: Seq<char>) -> nat
    decreases fields.len(),
{
    if fields.len() == 0 {
        0
    } else {
        element_count(fields.drop_last(), name) + if is_element_named(fields.last(), name) {
            1nat
        } else {
            0nat
        }
    }
}

/// How many of the fields have the key `key`.
pub open spec fn key_count(fields: Seq<FieldView>, key: KeyView) -> nat
    decreases fields.len(),
{
    if fields.len() == 0 {
        0
    } else {
        key_count(fields.drop_last(), key) + if fields.last().key == key {
            1nat
        } else {
            0nat
        }
    }
}

/// The position of the first field with the key `key`; the number of
/// fields if there is none.
pub open spec fn first_with_key(fields: Seq<FieldView>, key: KeyView) -> int
    decreases fields.len(),
{
    if fields.len() == 0 {
        0
    } else if fields.first().key == key {
        0
    } else {
        1 + first_with_key(fields.drop_first(), key)
    }
}

/// `first_with_key` is a position of the list or its length; up to it no
/// field has the key, and at it one has.
pub proof fn lemma_first_with_key(fields: Seq<FieldView>, key: KeyView)
    ensures
        0 <= first_with_key(fields, key) <= fields.len(),
        forall|k: int| 0 <= k < first_with_key(fields, key) ==> (#[trigger] fields[k]).key != key,
        first_with_key(fields, key) < fields.len() ==> fields[first_with_key(fields, key)].key == key,
    decreases fields.len(),
{
    if fields.len() > 0 && fields.first().key != key {
        let rest = fields.drop_first();
        lemma_first_with_key(rest, key);
        assert forall|k: int| 0 <= k < first_with_key(fields, key) implies (#[trigger] fields[k]).key
            != key by {
            if k > 0 {
                assert(fields[k] == rest[k - 1]);
            }
        }
        if first_with_key(fields, key) < fields.len() {
            assert(fields[first_with_key(fields, key)] == rest[first_with_key(rest, key)]);
        }
    }
}

/// Setting a field's value to the value it has leaves the document as it
/// is.
pub proof fn lemma_same_value_same_document(types: Seq<TypeView>, at: int, field_at: int)
    requires
        0 <= at < types.len(),
        0 <= field_at < types[at].fields.len(),
    ensures
        with_field_value(types, at, field_at, types[at].fields[field_at].value) == types,
{
    let field = types[at].fields[field_at];
    assert(types[at].fields.update(field_at, FieldView { key: field.key, value: field.value })
        =~= types[at].fields);
    assert(with_field_value(types, at, field_at, field.value) =~= types);
}

/// Appends a type entry.
pub fn insert_type(types: &mut Vec<TypeEntry>, entry: TypeEntry)
    ensures
        types_view(final(types)@) == with_type(types_view(old(types)@), entry@),
        final(types)@ == old(types)@.push(entry),
{
    types.push(entry);
    assert(types_view(types@) =~= types_view(old(types)@).push(entry@));
}

/// Removes the type entry at `at`; those behind it move up by one.
pub fn remove_type(types: &mut Vec<TypeEntry>, at: usize)
    requires
        at < old(types)@.len(),
    ensures
        types_view(final(types)@) == without_type(types_view(old(types)@), at as int),
        final(types)@ == old(types)@.remove(at as int),
{
    types.remove(at);
    assert(types_view(types@) =~= types_view(old(types)@).remove(at as int));
}

/// Appends a field to the type entry at `at`.
pub fn append_field(types: &mut Vec<TypeEntry>, at: usize, field: Field)
    requires
        at < old(types)@.len(),
    ensures
        types_view(final(types)@) == with_field(types_view(old(types)@), at as int, field@),
        final(types)@.len() == old(types)@.len(),
        forall|k: int| 0 <= k < old(types)@.len() && k != at ==> final(types)@[k] == old(types)@[k],
        final(types)@[at as int].fields@ == old(types)@[at as int].fields@.push(field),
{
    types[at].fields.push(field);
    assert(fields_view(types@[at as int].fields@) =~= fields_view(old(types)@[at as int].fields@).push(
        field@,
    ));
    assert(types_view(types@) =~= with_field(types_view(old(types)@), at as int, field@));
}

/// Removes field `field_at` of the type entry at `at`.
pub fn remove_field(types: &mut Vec<TypeEntry>, at: usize, field_at: usize)
    requires
        at < old(types)@.len(),
        field_at < old(types)@[at as int].fields@.len(),
    ensures
        types_view(final(types)@) == without_field(types_view(old(types)@), at as int, field_at as int),
        final(types)@.len() == old(types)@.len(),
        forall|k: int| 0 <= k < old(types)@.len() && k != at ==> final(types)@[k] == old(types)@[k],
        final(types)@[at as int].fields@ == old(types)@[at as int].fields@.remove(field_at as int),
{
    types[at].fields.remove(field_at);
    assert(fields_view(types@[at as int].fields@) =~= fields_view(
        old(types)@[at as int].fields@,
    ).remove(field_at as int));
    assert(types_view(types@) =~= without_field(types_view(old(types)@), at as int, field_at as int));
}

/// Gives the type entry at `at` a new name.
pub fn rename_type(types: &mut Vec<TypeEntry>, at: usize, name: String)
    requires
        at < old(types)@.len(),
    ensures
        types_view(final(types)@) == with_type_name(types_view(old(types)@), at as int, name@),
        final(types)@.len() == old(types)@.len(),
        forall|k: int| 0 <= k < old(types)@.len() && k != at ==> final(types)@[k] == old(types)@[k],
        final(types)@[at as int].fields == old(types)@[at as int].fields,
{
    types[at].name = name;
    assert(types_view(types@) =~= with_type_name(types_view(old(types)@), at as int, name@));
}

/// Gives field `field_at` of the type entry at `at` a new value.
pub fn set_field_value(types: &mut Vec<TypeEntry>, at: usize, field_at: usize, value: String)
    requires
        at < old(types)@.len(),
        field_at < old(types)@[at as int].fields@.len(),
    ensures
        types_view(final(types)@) == with_field_value(
            types_view(old(types)@),
            at as int,
            field_at as int,
            value@,
        ),
        final(types)@.len() == old(types)@.len(),
        forall|k: int| 0 <= k < old(types)@.len() && k != at ==> final(types)@[k] == old(types)@[k],
        final(types)@[at as int].fields@.len() == old(types)@[at as int].fields@.len(),
{
    types[at].fields[field_at].value = value;
    assert(fields_view(types@[at as int].fields@) =~= fields_view(
        old(types)@[at as int].fields@,
    ).update(
        field_at as int,
        FieldView { key: old(types)@[at as int].fields@[field_at as int].key@, value: value@ },
    ));
    assert(types_view(types@) =~= with_field_value(
        types_view(old(types)@),
        at as int,
        field_at as int,
        value@,
    ));
}

/// Gives the key of field `field_at` of the type entry at `at` a new name
/// component: the element name of an element key, the attribute name of an
/// attribute key.
pub fn set_field_key_name(types: &mut Vec<TypeEntry>, at: usize, field_at: usize, name: String)
    requires
        at < old(types)@.len(),
        field_at < old(types)@[at as int].fields@.len(),
    ensures
        types_view(final(types)@) == with_field_key_name(
            types_view(old(types)@),
            at as int,
            field_at as int,
            name@,
        ),
        final(types)@.len() == old(types)@.len(),
        forall|k: int| 0 <= k < old(types)@.len() && k != at ==> final(types)@[k] == old(types)@[k],
        final(types)@[at as int].fields@.len() == old(types)@[at as int].fields@.len(),
{
    types[at].fields[field_at].key.set_name(name);
    assert(fields_view(types@[at as int].fields@) =~= fields_view(
        old(types)@[at as int].fields@,
    ).update(
        field_at as int,
        FieldView {
            key: old(types)@[at as int].fields@[field_at as int].key@.with_name(name@),
            value: old(types)@[at as int].fields@[field_at as int].value@,
        },
    ));
    assert(types_view(types@) =~= with_field_key_name(
        types_view(old(types)@),
        at as int,
        field_at as int,
        name@,
    ));
}

/// Counts the fields that are the text of an element called `name`.
pub fn count_elements(fields: &Vec<Field>, name: &str) -> (r: usize)
    ensures
        r == element_count(fields_view(fields@), name@),
{
    let ghost all = fields_view(fields@);
    let mut count: usize = 0;
    let mut i: usize = 0;
    assert(all.take(0) =~= Seq::<FieldView>::empty());
    while i < fields.len()
        invariant
            i <= fields.len(),
            all == fields_view(fields@),
            count <= i,
            count == element_count(all.take(i as int), name@),
        decreases fields.len() - i,
    {
        assert(all.take(i as int + 1).drop_last() =~= all.take(i as int));
        assert(all.take(i as int + 1).last() == fields@[i as int]@);
        match &fields[i].key {
            FieldKey::Element { name: n, .. } => {
                if str_equal(n.as_str(), name) {
                    count += 1;
                }
            },
            FieldKey::Attribute { .. } => {},
        }
        i += 1;
    }
    assert(all.take(fields.len() as int) =~= all);
    count
}

} // verus!
