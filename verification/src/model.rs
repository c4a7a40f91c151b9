//! The document model: field keys, fields and type entries, with their
//! mathematical views.

use vstd::prelude::*;
use crate::text::{join2, join3, str_equal};

verus! {

/// Mathematical value of a [`FieldKey`].
pub enum KeyView {
    Element { name: Seq<char>, index: nat },
    Attribute { element: Seq<char>, index: nat, attr: Seq<char> },
}

/// Mathematical value of a [`Field`].
pub struct FieldView {
    pub key: KeyView,
    pub value: Seq<char>,
}

/// Mathematical value of a [`TypeEntry`].
pub struct TypeView {
    pub name: Seq<char>,
    pub fields: Seq<FieldView>,
}

/// Identity of a field inside its type.
#[derive(Debug, PartialEq, Eq, Hash)]
pub enum FieldKey {
    /// Text of the `index`-th child element called `name`.
    Element { name: String, index: usize },
    /// Attribute `attr` of the `index`-th child element called `element`.
    Attribute { element: String, index: usize, attr: String },
}

impl View for FieldKey {
    type V = KeyView;

    open spec fn view(&self) -> KeyView {
        match *self {
            FieldKey::Element { name, index } => KeyView::Element { name: name@, index: index as nat },
            FieldKey::Attribute { element, index, attr } => KeyView::Attribute {
                element: element@,
                index: index as nat,
                attr: attr@,
            },
        }
    }
}

impl Clone for FieldKey {
    fn clone(&self) -> (r: Self)
        ensures
            r == *self,
    {
        match self {
            FieldKey::Element { name, index } => FieldKey::Element { name: name.clone(), index: *index },
            FieldKey::Attribute { element, index, attr } => FieldKey::Attribute {
                element: element.clone(),
                index: *index,
                attr: attr.clone(),
            },
        }
    }
}

impl KeyView {
    /// The key with its name component replaced: the element name of an
    /// element key, the attribute name of an attribute key.
    pub open spec fn with_name(self, new_name: Seq<char>) -> KeyView {
        match self {
            KeyView::Element { name, index } => KeyView::Element { name: new_name, index },
            KeyView::Attribute { element, index, attr } => KeyView::Attribute { element, index, attr: new_name },
        }
    }

    /// Occurrence number of the element that the key addresses.
    pub open spec fn index(self) -> nat {
        match self {
            KeyView::Element { index, .. } => index,
            KeyView::Attribute { index, .. } => index,
        }
    }

    /// Name of the element that the key addresses.
    pub open spec fn element_name(self) -> Seq<char> {
        match self {
            KeyView::Element { name, .. } => name,
            KeyView::Attribute { element, .. } => element,
        }
    }
}

impl FieldKey {
    /// Replaces the name component of the key: the element name of an
    /// element key, the attribute name of an attribute key.
    pub fn set_name(&mut self, new_name: String)
        ensures
            final(self)@ == old(self)@.with_name(new_name@),
    {
        match self {
            FieldKey::Element { name, .. } => *name = new_name,
            FieldKey::Attribute { attr, .. } => *attr = new_name,
        }
    }

    /// The name of the element that the key addresses.
    pub fn get_element_name(&self) -> (r: &str)
        ensures
            r@ == self@.element_name(),
    {
        match self {
            FieldKey::Element { name, .. } => name.as_str(),
            FieldKey::Attribute { element, .. } => element.as_str(),
        }
    }
}

/// One addressable value inside a type: an element's text or the value of
/// one of an element's attributes.
#[derive(Debug, PartialEq, Eq)]
pub struct Field {
    pub key: FieldKey,
    pub value: String,
}

impl View for Field {
    type V = FieldView;

    open spec fn view(&self) -> FieldView {
        FieldView { key: self.key@, value: self.value@ }
    }
}

impl Clone for Field {
    fn clone(&self) -> (r: Self)
        ensures
            r == *self,
    {
        Field { key: self.key.clone(), value: self.value.clone() }
    }
}

/// One `<type>` element: its name and its fields in document order.
#[derive(Debug, PartialEq, Eq)]
pub struct TypeEntry {
    pub name: String,
    pub fields: Vec<Field>,
}

/// The views of a sequence of fields, in order.
pub open spec fn fields_view(fields: Seq<Field>) -> Seq<FieldView> {
    fields.map_values(|f: Field| f@)
}

/// The views of a sequence of type entries, in order.
pub open spec fn types_view(types: Seq<TypeEntry>) -> Seq<TypeView> {
    types.map_values(|t: TypeEntry| t@)
}

impl View for TypeEntry {
    type V = TypeView;

    open spec fn view(&self) -> TypeView {
        TypeView { name: self.name@, fields: fields_view(self.fields@) }
    }
}

/// Copies a list of fields.
pub fn clone_fields(fields: &Vec<Field>) -> (r: Vec<Field>)
    ensures
        r@ == fields@,
{
    let mut out: Vec<Field> = Vec::new();
    let mut i: usize = 0;
    while i < fields.len()
        invariant
            i <= fields.len(),
            out@ == fields@.take(i as int),
        decreases fields.len() - i,
    {
        out.push(fields[i].clone());
        assert(fields@.take(i as int + 1) =~= fields@.take(i as int).push(fields@[i as int]));
        i += 1;
    }
    assert(fields@.take(fields.len() as int) =~= fields@);
    out
}

impl Clone for TypeEntry {
    fn clone(&self) -> (r: Self)
        ensures
            r@ == self@,
            r.name == self.name,
            r.fields@ == self.fields@,
    {
        TypeEntry { name: self.name.clone(), fields: clone_fields(&self.fields) }
    }
}

/// Copies a list of type entries.
pub fn clone_types(types: &Vec<TypeEntry>) -> (r: Vec<TypeEntry>)
    ensures
        types_view(r@) == types_view(types@),
{
    let mut out: Vec<TypeEntry> = Vec::new();
    let mut i: usize = 0;
    while i < types.len()
        invariant
            i <= types.len(),
            types_view(out@) == types_view(types@.take(i as int)),
        decreases types.len() - i,
    {
        let ghost before = out@;
        out.push(types[i].clone());
        assert(types@.take(i as int + 1) =~= types@.take(i as int).push(types@[i as int]));
        assert(types_view(out@) =~= types_view(before).push(types@[i as int]@));
        assert(types_view(types@.take(i as int + 1)) =~= types_view(types@.take(i as int)).push(
            types@[i as int]@,
        ));
        i += 1;
    }
    assert(types@.take(types.len() as int) =~= types@);
    out
}

/// The label under which a key is listed: the element name, or element and
/// attribute joined by `" @"`.
pub open spec fn label_of(key: KeyView) -> Seq<char> {
    match key {
        KeyView::Element { name, .. } => name,
        KeyView::Attribute { element, attr, .. } => element + " @"@ + attr,
    }
}

/// The label under which a key is listed.
pub fn field_label(key: &FieldKey) -> (r: String)
    ensures
        r@ == label_of(key@),
{
    match key {
        FieldKey::Element { name, .. } => name.clone(),
        FieldKey::Attribute { element, attr, .. } => join3(element.as_str(), " @", attr.as_str()),
    }
}

impl FieldKey {
    /// Whether two keys are the same: same kind, same names, same index.
    pub fn same_key(&self, other: &FieldKey) -> (r: bool)
        ensures
            r == (self@ == other@),
    {
        match (self, other) {
            (FieldKey::Element { name, index }, FieldKey::Element { name: other_name, index: other_index }) => {
                *index == *other_index && str_equal(name.as_str(), other_name.as_str())
            },
            (
                FieldKey::Attribute { element, index, attr },
                FieldKey::Attribute { element: other_element, index: other_index, attr: other_attr },
            ) => {
                *index == *other_index && str_equal(element.as_str(), other_element.as_str())
                    && str_equal(attr.as_str(), other_attr.as_str())
            },
            _ => false,
        }
    }

    /// The element occurrence that the key belongs to.
    pub fn group(&self) -> (r: (String, usize))
        ensures
            r.0@ == self@.element_name(),
            r.1 as nat == self@.index(),
    {
        match self {
            FieldKey::Element { name, index } => (name.clone(), *index),
            FieldKey::Attribute { element, index, .. } => (element.clone(), *index),
        }
    }
}

/// An element field without text.
pub open spec fn empty_element(name: Seq<char>) -> FieldView {
    FieldView { key: KeyView::Element { name, index: 0 }, value: Seq::empty() }
}

/// An attribute field of the first occurrence of `element`.
pub open spec fn first_attribute(element: Seq<char>, attr: Seq<char>, value: Seq<char>) -> FieldView {
    FieldView { key: KeyView::Attribute { element, index: 0, attr }, value }
}

/// The fields that a new type starts with: seven empty elements, the six
/// flags, and an empty category name.
pub open spec fn default_template() -> Seq<FieldView> {
    seq![
        empty_element("nominal"@),
        empty_element("lifetime"@),
        empty_element("restock"@),
        empty_element("min"@),
        empty_element("quantmin"@),
        empty_element("quantmax"@),
        empty_element("cost"@),
        first_attribute("flags"@, "count_in_cargo"@, "0"@),
        first_attribute("flags"@, "count_in_hoarder"@, "0"@),
        first_attribute("flags"@, "count_in_map"@, "1"@),
        first_attribute("flags"@, "count_in_player"@, "0"@),
        first_attribute("flags"@, "crafted"@, "0"@),
        first_attribute("flags"@, "deloot"@, "0"@),
        first_attribute("category"@, "name"@, Seq::empty()),
    ]
}

fn element_field(name: &str) -> (r: Field)
    ensures
        r@ == empty_element(name@),
{
    Field { key: FieldKey::Element { name: name.to_owned(), index: 0 }, value: String::new() }
}

fn attribute_field(element: &str, attr: &str, value: &str) -> (r: Field)
    ensures
        r@ == first_attribute(element@, attr@, value@),
{
    Field {
        key: FieldKey::Attribute { element: element.to_owned(), index: 0, attr: attr.to_owned() },
        value: value.to_owned(),
    }
}

/// The fields that a new type starts with.
pub fn default_fields() -> (r: Vec<Field>)
    ensures
        fields_view(r@) == default_template(),
{
    let mut fields: Vec<Field> = Vec::new();
    fields.push(element_field("nominal"));
    fields.push(element_field("lifetime"));
    fields.push(element_field("restock"));
    fields.push(element_field("min"));
    fields.push(element_field("quantmin"));
    fields.push(element_field("quantmax"));
    fields.push(element_field("cost"));
    fields.push(attribute_field("flags", "count_in_cargo", "0"));
    fields.push(attribute_field("flags", "count_in_hoarder", "0"));
    fields.push(attribute_field("flags", "count_in_map", "1"));
    fields.push(attribute_field("flags", "count_in_player", "0"));
    fields.push(attribute_field("flags", "crafted", "0"));
    fields.push(attribute_field("flags", "deloot", "0"));
    let category = attribute_field("category", "name", "");
    proof {
        reveal_strlit("");
        assert(category@.value =~= Seq::<char>::empty());
    }
    fields.push(category);
    assert(fields_view(fields@) =~= default_template());
    fields
}

/// What the tips pane says about an element.
pub open spec fn element_help(name: Seq<char>) -> Seq<char> {
    if name == "nominal"@ {
        "The nominal (wanted) amount in the server. Same as max is max is not used."@
    } else if name == "lifetime"@ {
        "The amount of time it takes for the item to despawn when the item is on the ground.\nDoes not come into effect if the item is ruined"@
    } else if name == "restock"@ {
        "How long after one of the same item (despawns or is picked up by the player) is a new one spawned."@
    } else if name == "min"@ {
        "Minimum quantity of items to spawn this applies to the entire map."@
    } else if name == "quantmin"@ {
        "Minimum quantity of the item to spawn in a stack. Eg. Ammunition stack quantity."@
    } else if name == "quantmax"@ {
        "Maximum quantity of the item to spawn in a stack. Eg. Ammunition stack quantity."@
    } else if name == "cost"@ {
        "Loot spawning prioritizer - no one really knows what this does exactly. :D"@
    } else if name == "category"@ || name == "usage"@ || name == "tag"@ {
        "The location class of where this item can spawn."@
    } else if name == "flags"@ {
        ""@
    } else {
        "Unknown field - open a github issue with the field name."@
    }
}

/// What the tips pane says about an attribute.
pub open spec fn attribute_help(attr: Seq<char>) -> Seq<char> {
    if attr == "count_in_cargo"@ {
        "Boolean flag. Sets the total amount that can spawn (map wide) in cargo (tents, boxes, vehicles).\nIf flag is set to 1, item won't spawn if there are already a nominal number of items for this flag."@
    } else if attr == "count_in_hoarder"@ {
        "Boolean flag. Sets the total amount that can spawn (map wide) in Zombies.\nIf flag is set to 1, item won't spawn if there are already a nominal number of items for this flag."@
    } else if attr == "count_in_map"@ {
        "Boolean flag. Sets the total amount that can spawn on the map.\nIf flag is set to 1, item won't spawn if there are already a nominal number of items for this flag."@
    } else if attr == "count_in_player"@ {
        "Boolean flag. Sets the total amount that can spawn (map wide) on players.\nIf flag is set to 1, item won't spawn if there are already a nominal number of items for this flag."@
    } else if attr == "crafted"@ {
        "Boolean flag. Sets the total amount based on crafted count (map wide)\nIf flag is set to 1, item won't spawn if there are already a nominal number of items for this flag."@
    } else if attr == "deloot"@ {
        "Boolean flag. Sets the total amount (map wide) from dynamic events. E.g Helicopter crashes etc.\nIf flag is set to 1, item won't spawn if there are already a nominal number of items for this flag."@
    } else if attr == "name"@ {
        "The location class of where this item can spawn."@
    } else {
        "Unknown attribute - open a github issue. "@ + attr
    }
}

/// What the tips pane says about a field: about its element for an element
/// key, about its attribute for an attribute key.
pub open spec fn help_of(key: KeyView) -> Seq<char> {
    match key {
        KeyView::Element { name, .. } => element_help(name),
        KeyView::Attribute { attr, .. } => attribute_help(attr),
    }
}

fn help_for_element(name: &str) -> (r: String)
    ensures
        r@ == element_help(name@),
{
    if str_equal(name, "nominal") {
        "The nominal (wanted) amount in the server. Same as max is max is not used.".to_owned()
    } else if str_equal(name, "lifetime") {
        "The amount of time it takes for the item to despawn when the item is on the ground.\nDoes not come into effect if the item is ruined".to_owned()
    } else if str_equal(name, "restock") {
        "How long after one of the same item (despawns or is picked up by the player) is a new one spawned.".to_owned()
    } else if str_equal(name, "min") {
        "Minimum quantity of items to spawn this applies to the entire map.".to_owned()
    } else if str_equal(name, "quantmin") {
        "Minimum quantity of the item to spawn in a stack. Eg. Ammunition stack quantity.".to_owned()
    } else if str_equal(name, "quantmax") {
        "Maximum quantity of the item to spawn in a stack. Eg. Ammunition stack quantity.".to_owned()
    } else if str_equal(name, "cost") {
        "Loot spawning prioritizer - no one really knows what this does exactly. :D".to_owned()
    } else if str_equal(name, "category") || str_equal(name, "usage") || str_equal(name, "tag") {
        "The location class of where this item can spawn.".to_owned()
    } else if str_equal(name, "flags") {
        "".to_owned()
    } else {
        "Unknown field - open a github issue with the field name.".to_owned()
    }
}

fn help_for_attribute(attr: &str) -> (r: String)
    ensures
        r@ == attribute_help(attr@),
{
    if str_equal(attr, "count_in_cargo") {
        "Boolean flag. Sets the total amount that can spawn (map wide) in cargo (tents, boxes, vehicles).\nIf flag is set to 1, item won't spawn if there are already a nominal number of items for this flag.".to_owned()
    } else if str_equal(attr, "count_in_hoarder") {
        "Boolean flag. Sets the total amount that can spawn (map wide) in Zombies.\nIf flag is set to 1, item won't spawn if there are already a nominal number of items for this flag.".to_owned()
    } else if str_equal(attr, "count_in_map") {
        "Boolean flag. Sets the total amount that can spawn on the map.\nIf flag is set to 1, item won't spawn if there are already a nominal number of items for this flag.".to_owned()
    } else if str_equal(attr, "count_in_player") {
        "Boolean flag. Sets the total amount that can spawn (map wide) on players.\nIf flag is set to 1, item won't spawn if there are already a nominal number of items for this flag.".to_owned()
    } else if str_equal(attr, "crafted") {
        "Boolean flag. Sets the total amount based on crafted count (map wide)\nIf flag is set to 1, item won't spawn if there are already a nominal number of items for this flag.".to_owned()
    } else if str_equal(attr, "deloot") {
        "Boolean flag. Sets the total amount (map wide) from dynamic events. E.g Helicopter crashes etc.\nIf flag is set to 1, item won't spawn if there are already a nominal number of items for this flag.".to_owned()
    } else if str_equal(attr, "name") {
        "The location class of where this item can spawn.".to_owned()
    } else {
        join2("Unknown attribute - open a github issue. ", attr)
    }
}

impl FieldKey {
    /// What the tips pane says about a field with this key.
    pub fn get_help_text(&self) -> (r: String)
        ensures
            r@ == help_of(self@),
    {
        match self {
            FieldKey::Element { name, .. } => help_for_element(name.as_str()),
            FieldKey::Attribute { attr, .. } => help_for_attribute(attr.as_str()),
        }
    }
}

} // verus!
