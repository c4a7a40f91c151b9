//! Reading a document: from the reader's tokens to type entries.

use vstd::prelude::*;
use crate::model::{Field, FieldKey, FieldView, KeyView, TypeEntry, TypeView, fields_view, types_view};
use crate::text::{str_equal, trim, trimmed};
use crate::error::EditorError;
use crate::xml_io::{
    AttrView,
    TokenView,
    XmlAttribute,
    XmlToken,
    attrs_view,
    read_tokens,
    reader_error_text,
    tokens_view,
    xml_tokens,
};

verus! {

/// What the parser remembers between two tokens.
pub struct ParseState {
    /// The type entries that are complete.
    pub types: Seq<TypeView>,
    /// The type entry that is open, if one is.
    pub current: Option<TypeView>,
    /// How many start tags of each name the open type has had so far.
    pub counts: Map<Seq<char>, nat>,
    /// The child element whose text is being read.
    pub element: Option<(Seq<char>, nat)>,
}

/// The value of the first attribute called `name`; empty if there is none.
pub open spec fn name_attribute(attributes: Seq<AttrView>) -> Seq<char>
    decreases attributes.len(),
{
    if attributes.len() == 0 {
        Seq::empty()
    } else if attributes.first().name == "name"@ {
        attributes.first().value
    } else {
        name_attribute(attributes.drop_first())
    }
}

/// One attribute field per attribute of a start tag, in the tag's order.
pub open spec fn attribute_fields(element: Seq<char>, index: nat, attributes: Seq<AttrView>) -> Seq<
    FieldView,
> {
    attributes.map_values(
        |a: AttrView|
            FieldView { key: KeyView::Attribute { element, index, attr: a.name }, value: a.value },
    )
}

/// How often `name` has been counted.
pub open spec fn count_of(counts: Map<Seq<char>, nat>, name: Seq<char>) -> nat {
    if counts.dom().contains(name) {
        counts[name]
    } else {
        0
    }
}

/// `entry` with `more` appended to its fields.
pub open spec fn with_fields(entry: TypeView, more: Seq<FieldView>) -> TypeView {
    TypeView { name: entry.name, fields: entry.fields + more }
}

impl ParseState {
    /// The state before the first token.
    pub open spec fn start() -> ParseState {
        ParseState { types: Seq::empty(), current: None, counts: Map::empty(), element: None }
    }

    /// The state after one more token.
    pub open spec fn step(self, token: TokenView) -> ParseState {
        match token {
            TokenView::Start { name, attributes } => {
                if name == "type"@ {
                    ParseState {
                        types: self.types,
                        current: Some(
                            TypeView { name: name_attribute(attributes), fields: Seq::empty() },
                        ),
                        counts: Map::empty(),
                        element: None,
                    }
                } else {
                    let index = count_of(self.counts, name);
                    ParseState {
                        types: self.types,
                        current: match self.current {
                            Some(entry) => Some(
                                with_fields(entry, attribute_fields(name, index, attributes)),
                            ),
                            None => None,
                        },
                        counts: self.counts.insert(name, index + 1),
                        element: Some((name, index)),
                    }
                }
            },
            TokenView::Text(text) => {
                let value = trimmed(text);
                if value.len() > 0 && self.element is Some && self.current is Some {
                    let (name, index) = self.element->0;
                    let field = FieldView { key: KeyView::Element { name, index }, value };
                    ParseState {
                        types: self.types,
                        current: Some(with_fields(self.current->0, seq![field])),
                        counts: self.counts,
                        element: self.element,
                    }
                } else {
                    self
                }
            },
            TokenView::End { name } => {
                if name == "type"@ {
                    ParseState {
                        types: match self.current {
                            Some(entry) => self.types.push(entry),
                            None => self.types,
                        },
                        current: None,
                        counts: Map::empty(),
                        element: None,
                    }
                } else {
                    ParseState {
                        types: self.types,
                        current: self.current,
                        counts: self.counts,
                        element: None,
                    }
                }
            },
            TokenView::Other => self,
        }
    }

    /// The state after a sequence of tokens, read from this state on.
    pub open spec fn run_from(self, tokens: Seq<TokenView>) -> ParseState
        decreases tokens.len(),
    {
        if tokens.len() == 0 {
            self
        } else {
            self.run_from(tokens.drop_last()).step(tokens.last())
        }
    }

    /// The state after a sequence of tokens.
    pub open spec fn run(tokens: Seq<TokenView>) -> ParseState {
        ParseState::start().run_from(tokens)
    }
}

/// The type entries that a sequence of tokens describes: those that were
/// closed by an end tag, in document order.
pub open spec fn parsed_types(tokens: Seq<TokenView>) -> Seq<TypeView> {
    ParseState::run(tokens).types
}

/// The counters of the parser, as a list of names with their counts.
spec fn counts_match(list: Seq<(String, usize)>, counts: Map<Seq<char>, nat>) -> bool {
    &&& forall|i: int, j: int|
        0 <= i < j < list.len() ==> (#[trigger] list[i]).0@ != (#[trigger] list[j]).0@
    &&& forall|i: int|
        0 <= i < list.len() ==> counts.dom().contains((#[trigger] list[i]).0@) && counts[list[i].0@]
            == list[i].1
    &&& forall|name: Seq<char>| #[trigger]
        counts.dom().contains(name) ==> exists|i: int|
            0 <= i < list.len() && (#[trigger] list[i]).0@ == name
}

/// Looks `name` up, counts it once more, and returns the count it had.
fn next_index(list: &mut Vec<(String, usize)>, name: &str, Ghost(counts): Ghost<Map<Seq<char>, nat>>, Ghost(bound): Ghost<nat>) -> (r: usize)
    requires
        counts_match(old(list)@, counts),
        bound < usize::MAX,
        forall|i: int| 0 <= i < old(list)@.len() ==> (#[trigger] old(list)@[i]).1 <= bound,
    ensures
        r == count_of(counts, name@),
        counts_match(final(list)@, counts.insert(name@, r as nat + 1)),
        forall|i: int| 0 <= i < final(list)@.len() ==> (#[trigger] final(list)@[i]).1 <= bound + 1,
{
    let mut i: usize = 0;
    while i < list.len()
        invariant
            i <= list.len(),
            *list == *old(list),
            counts_match(list@, counts),
            bound < usize::MAX,
            forall|k: int| 0 <= k < list@.len() ==> (#[trigger] list@[k]).1 <= bound,
            forall|k: int| 0 <= k < i ==> (#[trigger] list@[k]).0@ != name@,
        decreases list.len() - i,
    {
        if str_equal(list[i].0.as_str(), name) {
            let found = list[i].1;
            let item = (list[i].0.clone(), found + 1);
            list.set(i, item);
            proof {
                let after = counts.insert(name@, found as nat + 1);
                assert forall|n: Seq<char>| #[trigger] after.dom().contains(n) implies exists|k: int|
                    0 <= k < list@.len() && (#[trigger] list@[k]).0@ == n by {
                    if n == name@ {
                        assert(list@[i as int].0@ == n);
                    } else {
                        let k = choose|k: int|
                            0 <= k < old(list)@.len() && (#[trigger] old(list)@[k]).0@ == n;
                        assert(list@[k].0@ == n);
                    }
                }
            }
            return found;
        }
        i += 1;
    }
    list.push((name.to_owned(), 1));
    proof {
        let after = counts.insert(name@, 1);
        if counts.dom().contains(name@) {
            let k = choose|k: int| 0 <= k < old(list)@.len() && (#[trigger] old(list)@[k]).0@ == name@;
            assert(false);
        }
        assert forall|n: Seq<char>| #[trigger] after.dom().contains(n) implies exists|k: int|
            0 <= k < list@.len() && (#[trigger] list@[k]).0@ == n by {
            if n == name@ {
                assert(list@[list@.len() - 1].0@ == n);
            } else {
                let k = choose|k: int|
                    0 <= k < old(list)@.len() && (#[trigger] old(list)@[k]).0@ == n;
                assert(list@[k].0@ == n);
            }
        }
    }
    0
}

/// The value of the first attribute called `name`; empty if there is none.
fn find_name_attribute(attributes: &Vec<XmlAttribute>) -> (r: String)
    ensures
        r@ == name_attribute(attrs_view(attributes@)),
{
    let ghost all = attrs_view(attributes@);
    let mut i: usize = 0;
    assert(all.skip(0) =~= all);
    while i < attributes.len()
        invariant
            i <= attributes.len(),
            all == attrs_view(attributes@),
            name_attribute(all) == name_attribute(all.skip(i as int)),
        decreases attributes.len() - i,
    {
        assert(all.skip(i as int).first() == attributes@[i as int]@);
        if str_equal(attributes[i].name.as_str(), "name") {
            return attributes[i].value.clone();
        }
        assert(all.skip(i as int).drop_first() =~= all.skip(i as int + 1));
        i += 1;
    }
    String::new()
}

/// Appends one attribute field per attribute to `fields`.
fn push_attribute_fields(fields: &mut Vec<Field>, element: &str, index: usize, attributes: &Vec<XmlAttribute>)
    ensures
        fields_view(final(fields)@) == fields_view(old(fields)@) + attribute_fields(
            element@,
            index as nat,
            attrs_view(attributes@),
        ),
{
    let ghost all = attribute_fields(element@, index as nat, attrs_view(attributes@));
    let mut i: usize = 0;
    assert(fields_view(fields@) =~= fields_view(old(fields)@) + all.take(0));
    while i < attributes.len()
        invariant
            i <= attributes.len(),
            all == attribute_fields(element@, index as nat, attrs_view(attributes@)),
            fields_view(fields@) == fields_view(old(fields)@) + all.take(i as int),
        decreases attributes.len() - i,
    {
        let field = Field {
            key: FieldKey::Attribute {
                element: element.to_owned(),
                index,
                attr: attributes[i].name.clone(),
            },
            value: attributes[i].value.clone(),
        };
        assert(field@ == all[i as int]);
        let ghost before = fields@;
        fields.push(field);
        assert(fields_view(fields@) =~= fields_view(before).push(field@));
        assert(all.take(i as int + 1) =~= all.take(i as int).push(all[i as int]));
        assert(fields_view(fields@) =~= fields_view(old(fields)@) + all.take(i as int + 1));
        i += 1;
    }
    assert(all.take(attributes.len() as int) =~= all);
}

/// Builds the type entries that a sequence of tokens describes.
pub fn parse_tokens(tokens: &Vec<XmlToken>) -> (r: Vec<TypeEntry>)
    ensures
        types_view(r@) == parsed_types(tokens_view(tokens@)),
{
    let ghost all = tokens_view(tokens@);
    let mut types: Vec<TypeEntry> = Vec::new();
    let mut current: Option<TypeEntry> = None;
    let mut counts: Vec<(String, usize)> = Vec::new();
    let mut element: Option<(String, usize)> = None;
    let mut i: usize = 0;
    let ghost mut state = ParseState::start();
    assert(all.take(0) =~= Seq::<TokenView>::empty());
    assert(types_view(types@) =~= state.types);
    while i < tokens.len()
        invariant
            i <= tokens.len(),
            all == tokens_view(tokens@),
            state == ParseState::run(all.take(i as int)),
            types_view(types@) == state.types,
            current is Some <==> state.current is Some,
            current matches Some(entry) ==> entry@ == state.current->0,
            element is Some <==> state.element is Some,
            element matches Some(open) ==> (open.0@, open.1 as nat) == state.element->0,
            counts_match(counts@, state.counts),
            forall|k: int| 0 <= k < counts@.len() ==> (#[trigger] counts@[k]).1 <= i,
        decreases tokens.len() - i,
    {
        let ghost token = all[i as int];
        assert(all.take(i as int + 1).drop_last() =~= all.take(i as int));
        assert(all.take(i as int + 1).last() == token);
        assert(token == tokens@[i as int]@);
        let ghost next = state.step(token);
        match &tokens[i] {
            XmlToken::Start { name, attributes } => {
                if str_equal(name.as_str(), "type") {
                    current = Some(
                        TypeEntry { name: find_name_attribute(attributes), fields: Vec::new() },
                    );
                    counts = Vec::new();
                    element = None;
                    assert(fields_view(Seq::<Field>::empty()) =~= Seq::<FieldView>::empty());
                } else {
                    let index = next_index(&mut counts, name.as_str(), Ghost(state.counts), Ghost(i as nat));
                    match current.take() {
                        Some(mut entry) => {
                            push_attribute_fields(&mut entry.fields, name.as_str(), index, attributes);
                            current = Some(entry);
                        },
                        None => {},
                    }
                    element = Some((name.clone(), index));
                }
            },
            XmlToken::Text(text) => {
                let value = trim(text.as_str());
                if !value.as_str().is_empty() {
                    match (&element, current.take()) {
                        (Some(open), Some(mut entry)) => {
                            let field = Field {
                                key: FieldKey::Element { name: open.0.clone(), index: open.1 },
                                value,
                            };
                            let ghost before = entry.fields@;
                            entry.fields.push(field);
                            assert(fields_view(entry.fields@) =~= fields_view(before) + seq![field@]);
                            current = Some(entry);
                        },
                        (_, other) => {
                            current = other;
                        },
                    }
                }
            },
            XmlToken::End { name } => {
                if str_equal(name.as_str(), "type") {
                    match current.take() {
                        Some(entry) => {
                            let ghost before = types@;
                            types.push(entry);
                            assert(types_view(types@) =~= types_view(before).push(entry@));
                        },
                        None => {},
                    }
                    counts = Vec::new();
                }
                element = None;
            },
            XmlToken::Other => {},
        }
        proof {
            state = next;
        }
        i += 1;
    }
    assert(all.take(tokens.len() as int) =~= all);
    types
}

/// Reads a document: the type entries that the reader's tokens describe, or
/// `InvalidData` with the reader's message where the text is not
/// well-formed XML.
pub fn parse_types(content: &str) -> (r: Result<Vec<TypeEntry>, EditorError>)
    ensures
        match xml_tokens(content@) {
            Some(tokens) => r matches Ok(types) && types_view(types@) == parsed_types(tokens),
            None => r matches Err(EditorError::InvalidData(_)),
        },
{
    match read_tokens(content) {
        Ok(tokens) => Ok(parse_tokens(&tokens)),
        Err(error) => Err(EditorError::InvalidData(reader_error_text(&error))),
    }
}

} // verus!
