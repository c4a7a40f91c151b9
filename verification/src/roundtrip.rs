//! Writing and reading back: parsing what the serializer writes gives the
//! document back, for documents of the shape that parsing produces.

use vstd::prelude::*;
use crate::model::{FieldView, KeyView, TypeView};
use crate::parse::{ParseState, attribute_fields, count_of, name_attribute, parsed_types};
use crate::serialize::{
    document_events,
    element_events,
    group_attributes,
    group_order,
    group_text,
    groups_events,
    type_events,
    types_events,
};
use crate::text::trimmed;
use crate::xml_io::{AttrView, TokenView, WriteView};

verus! {

/// The tokens of one written element occurrence: the start tag with its
/// attributes, the text if there is one, and the end tag.
pub open spec fn element_tokens(fields: Seq<FieldView>, group: (Seq<char>, nat)) -> Seq<TokenView> {
    let start = TokenView::Start { name: group.0, attributes: group_attributes(fields, group) };
    let end = TokenView::End { name: group.0 };
    match group_text(fields, group) {
        Some(text) => seq![start, TokenView::Text(text), end],
        None => seq![start, end],
    }
}

/// The tokens of the written element occurrences, in order.
pub open spec fn groups_tokens(fields: Seq<FieldView>, groups: Seq<(Seq<char>, nat)>) -> Seq<TokenView>
    decreases groups.len(),
{
    if groups.len() == 0 {
        Seq::empty()
    } else {
        groups_tokens(fields, groups.drop_last()) + element_tokens(fields, groups.last())
    }
}

/// The tokens of one written type entry.
pub open spec fn type_tokens(entry: TypeView) -> Seq<TokenView> {
    seq![
        TokenView::Start {
            name: "type"@,
            attributes: seq![AttrView { name: "name"@, value: entry.name }],
        },
    ] + groups_tokens(entry.fields, group_order(entry.fields)) + seq![TokenView::End { name: "type"@ }]
}

/// The tokens of the written type entries, in order.
pub open spec fn types_tokens(types: Seq<TypeView>) -> Seq<TokenView>
    decreases types.len(),
{
    if types.len() == 0 {
        Seq::empty()
    } else {
        types_tokens(types.drop_last()) + type_tokens(types.last())
    }
}

/// The tokens of a written document: what the writer's instructions say,
/// tag by tag, with every end tag named after the element it closes.
pub open spec fn document_tokens(types: Seq<TypeView>) -> Seq<TokenView> {
    seq![TokenView::Start { name: "types"@, attributes: Seq::empty() }] + types_tokens(types) + seq![
        TokenView::End { name: "types"@ },
    ]
}

/// An instruction to the writer and a token of the reader say the same:
/// the same start tag, the same text, or an end.
pub open spec fn mirrors(event: WriteView, token: TokenView) -> bool {
    match (event, token) {
        (WriteView::Start { name, attributes }, TokenView::Start { name: n, attributes: a }) => name == n
            && attributes == a,
        (WriteView::Text(text), TokenView::Text(t)) => text == t,
        (WriteView::End, TokenView::End { .. }) => true,
        _ => false,
    }
}

/// Two sequences say the same, place by place.
pub open spec fn all_mirror(events: Seq<WriteView>, tokens: Seq<TokenView>) -> bool {
    &&& events.len() == tokens.len()
    &&& forall|i: int| 0 <= i < events.len() ==> mirrors(#[trigger] events[i], tokens[i])
}

proof fn lemma_mirror_concat(
    first_events: Seq<WriteView>,
    first_tokens: Seq<TokenView>,
    second_events: Seq<WriteView>,
    second_tokens: Seq<TokenView>,
)
    requires
        all_mirror(first_events, first_tokens),
        all_mirror(second_events, second_tokens),
    ensures
        all_mirror(first_events + second_events, first_tokens + second_tokens),
{
    let events = first_events + second_events;
    let tokens = first_tokens + second_tokens;
    assert forall|i: int| 0 <= i < events.len() implies mirrors(#[trigger] events[i], tokens[i]) by {
        if i < first_events.len() {
            assert(mirrors(first_events[i], first_tokens[i]));
        } else {
            assert(mirrors(second_events[i - first_events.len()], second_tokens[i - first_events.len()]));
        }
    }
}

proof fn lemma_groups_mirror(fields: Seq<FieldView>, groups: Seq<(Seq<char>, nat)>)
    ensures
        all_mirror(groups_events(fields, groups), groups_tokens(fields, groups)),
    decreases groups.len(),
{
    if groups.len() > 0 {
        lemma_groups_mirror(fields, groups.drop_last());
        lemma_mirror_concat(
            groups_events(fields, groups.drop_last()),
            groups_tokens(fields, groups.drop_last()),
            element_events(fields, groups.last()),
            element_tokens(fields, groups.last()),
        );
    }
}

proof fn lemma_type_mirrors(entry: TypeView)
    ensures
        all_mirror(type_events(entry), type_tokens(entry)),
{
    let groups = group_order(entry.fields);
    lemma_groups_mirror(entry.fields, groups);
    let open_event = seq![
        WriteView::Start {
            name: "type"@,
            attributes: seq![AttrView { name: "name"@, value: entry.name }],
        },
    ];
    let open_token = seq![
        TokenView::Start {
            name: "type"@,
            attributes: seq![AttrView { name: "name"@, value: entry.name }],
        },
    ];
    lemma_mirror_concat(
        open_event,
        open_token,
        groups_events(entry.fields, groups),
        groups_tokens(entry.fields, groups),
    );
    lemma_mirror_concat(
        open_event + groups_events(entry.fields, groups),
        open_token + groups_tokens(entry.fields, groups),
        seq![WriteView::End],
        seq![TokenView::End { name: "type"@ }],
    );
}

proof fn lemma_types_mirror(types: Seq<TypeView>)
    ensures
        all_mirror(types_events(types), types_tokens(types)),
    decreases types.len(),
{
    if types.len() > 0 {
        lemma_types_mirror(types.drop_last());
        lemma_type_mirrors(types.last());
        lemma_mirror_concat(
            types_events(types.drop_last()),
            types_tokens(types.drop_last()),
            type_events(types.last()),
            type_tokens(types.last()),
        );
    }
}

/// The tokens of a written document say, place by place, what the
/// serializer's instructions say.
pub proof fn lemma_tokens_mirror_events(types: Seq<TypeView>)
    ensures
        all_mirror(document_events(types), document_tokens(types)),
{
    lemma_types_mirror(types);
    let open_event = seq![WriteView::Start { name: "types"@, attributes: Seq::<AttrView>::empty() }];
    let open_token = seq![TokenView::Start { name: "types"@, attributes: Seq::<AttrView>::empty() }];
    lemma_mirror_concat(open_event, open_token, types_events(types), types_tokens(types));
    lemma_mirror_concat(
        open_event + types_events(types),
        open_token + types_tokens(types),
        seq![WriteView::End],
        seq![TokenView::End { name: "types"@ }],
    );
}

/// The fields of one element occurrence as parsing lists them: its
/// attributes in order, then its text if it has one.
pub open spec fn group_fields(fields: Seq<FieldView>, group: (Seq<char>, nat)) -> Seq<FieldView> {
    let attributes = attribute_fields(group.0, group.1, group_attributes(fields, group));
    match group_text(fields, group) {
        Some(text) => attributes.push(
            FieldView { key: KeyView::Element { name: group.0, index: group.1 }, value: text },
        ),
        None => attributes,
    }
}

/// The fields listed again, one element occurrence after the other.
pub open spec fn regrouped(fields: Seq<FieldView>, groups: Seq<(Seq<char>, nat)>) -> Seq<FieldView>
    decreases groups.len(),
{
    if groups.len() == 0 {
        Seq::empty()
    } else {
        regrouped(fields, groups.drop_last()) + group_fields(fields, groups.last())
    }
}

/// How many of the element occurrences have the name `name`.
pub open spec fn occurrences(groups: Seq<(Seq<char>, nat)>, name: Seq<char>) -> nat
    decreases groups.len(),
{
    if groups.len() == 0 {
        0
    } else {
        occurrences(groups.drop_last(), name) + if groups.last().0 == name {
            1nat
        } else {
            0nat
        }
    }
}

/// A type entry has the shape that parsing gives: its fields stand
/// together by element occurrence, attributes before the text; the
/// occurrences of each element name are numbered from zero in the order in
/// which they appear; no child element is called `type`; and every text is
/// trimmed and not empty.
pub open spec fn parse_shaped(entry: TypeView) -> bool {
    let groups = group_order(entry.fields);
    &&& regrouped(entry.fields, groups) == entry.fields
    &&& forall|k: int|
        0 <= k < groups.len() ==> (#[trigger] groups[k]).1 == occurrences(groups.take(k), groups[k].0)
    &&& forall|k: int| 0 <= k < groups.len() ==> (#[trigger] groups[k]).0 != "type"@
    &&& forall|i: int|
        0 <= i < entry.fields.len() && (#[trigger] entry.fields[i]).key is Element ==> trimmed(
            entry.fields[i].value,
        ) == entry.fields[i].value && entry.fields[i].value.len() > 0
}

/// Every type entry of the document has the shape that parsing gives.
pub open spec fn document_parse_shaped(types: Seq<TypeView>) -> bool {
    forall|i: int| 0 <= i < types.len() ==> parse_shaped(#[trigger] types[i])
}

/// The counters of the parser after the start tags of the given element
/// occurrences.
spec fn counted(groups: Seq<(Seq<char>, nat)>) -> Map<Seq<char>, nat>
    decreases groups.len(),
{
    if groups.len() == 0 {
        Map::empty()
    } else {
        let before = counted(groups.drop_last());
        before.insert(groups.last().0, count_of(before, groups.last().0) + 1)
    }
}

proof fn lemma_counted(groups: Seq<(Seq<char>, nat)>, name: Seq<char>)
    ensures
        count_of(counted(groups), name) == occurrences(groups, name),
    decreases groups.len(),
{
    if groups.len() > 0 {
        lemma_counted(groups.drop_last(), name);
        lemma_counted(groups.drop_last(), groups.last().0);
    }
}

/// Reading two sequences in a row is reading their concatenation.
pub proof fn lemma_run_concat(state: ParseState, first: Seq<TokenView>, second: Seq<TokenView>)
    ensures
        state.run_from(first + second) == state.run_from(first).run_from(second),
    decreases second.len(),
{
    if second.len() == 0 {
        assert(first + second =~= first);
    } else {
        assert((first + second).drop_last() =~= first + second.drop_last());
        assert((first + second).last() == second.last());
        lemma_run_concat(state, first, second.drop_last());
    }
}

proof fn lemma_run_one(state: ParseState, token: TokenView)
    ensures
        state.run_from(seq![token]) == state.step(token),
{
    assert(seq![token].drop_last() =~= Seq::<TokenView>::empty());
    assert(state.run_from(seq![token].drop_last()) == state);
}

/// The text that the fields give to an element occurrence is the value of
/// one of their element fields.
proof fn lemma_group_text_is_a_value(fields: Seq<FieldView>, group: (Seq<char>, nat))
    requires
        group_text(fields, group) is Some,
    ensures
        exists|i: int|
            0 <= i < fields.len() && (#[trigger] fields[i]).key is Element && fields[i].value
                == group_text(fields, group)->0,
    decreases fields.len(),
{
    let last = fields.len() - 1;
    match fields.last().key {
        KeyView::Element { name, index } => {
            if (name, index) == group {
                assert(fields[last].key is Element && fields[last].value == group_text(fields, group)->0);
            } else {
                lemma_group_text_is_a_value(fields.drop_last(), group);
                let i = choose|i: int|
                    0 <= i < fields.drop_last().len() && (#[trigger] fields.drop_last()[i]).key is Element
                        && fields.drop_last()[i].value == group_text(fields.drop_last(), group)->0;
                assert(fields[i] == fields.drop_last()[i]);
            }
        },
        KeyView::Attribute { .. } => {
            lemma_group_text_is_a_value(fields.drop_last(), group);
            let i = choose|i: int|
                0 <= i < fields.drop_last().len() && (#[trigger] fields.drop_last()[i]).key is Element
                    && fields.drop_last()[i].value == group_text(fields.drop_last(), group)->0;
            assert(fields[i] == fields.drop_last()[i]);
        },
    }
}

/// The state of the parser inside a type, after the given element
/// occurrences were read.
spec fn inside(types: Seq<TypeView>, name: Seq<char>, fields: Seq<FieldView>, groups: Seq<(Seq<char>, nat)>) -> ParseState {
    ParseState {
        types,
        current: Some(TypeView { name, fields: regrouped(fields, groups) }),
        counts: counted(groups),
        element: None,
    }
}

proof fn lemma_run_two(state: ParseState, first: TokenView, second: TokenView)
    ensures
        state.run_from(seq![first, second]) == state.step(first).step(second),
{
    assert(seq![first, second].drop_last() =~= seq![first]);
    lemma_run_one(state, first);
}

proof fn lemma_run_three(state: ParseState, first: TokenView, second: TokenView, third: TokenView)
    ensures
        state.run_from(seq![first, second, third]) == state.step(first).step(second).step(third),
{
    assert(seq![first, second, third].drop_last() =~= seq![first, second]);
    lemma_run_two(state, first, second);
}

/// Reading the tokens of one element occurrence, from a state inside a
/// type whose counter for the element's name stands at the occurrence's
/// index, appends the fields of the occurrence and counts it.
proof fn lemma_read_one(before: ParseState, fields: Seq<FieldView>, group: (Seq<char>, nat))
    requires
        before.current is Some,
        group.0 != "type"@,
        count_of(before.counts, group.0) == group.1,
        group_text(fields, group) matches Some(text) ==> trimmed(text) == text && text.len() > 0,
    ensures
        before.run_from(element_tokens(fields, group)) == (ParseState {
            types: before.types,
            current: Some(
                TypeView {
                    name: before.current->0.name,
                    fields: before.current->0.fields + group_fields(fields, group),
                },
            ),
            counts: before.counts.insert(group.0, group.1 + 1),
            element: None,
        }),
{
    let attributes = group_attributes(fields, group);
    let start = TokenView::Start { name: group.0, attributes };
    let end = TokenView::End { name: group.0 };
    let listed = before.current->0.fields;
    let opened = before.step(start);
    match group_text(fields, group) {
        Some(text) => {
            lemma_run_three(before, start, TokenView::Text(text), end);
            let filled = opened.step(TokenView::Text(text));
            let field = FieldView { key: KeyView::Element { name: group.0, index: group.1 }, value: text };
            assert(filled.current->0.fields =~= listed + group_fields(fields, group)) by {
                assert(filled.current->0.fields == (listed + attribute_fields(group.0, group.1, attributes))
                    + seq![field]);
            }
        },
        None => {
            lemma_run_two(before, start, end);
        },
    }
}

/// Reading the tokens of one element occurrence appends its fields.
proof fn lemma_read_element(types: Seq<TypeView>, entry: TypeView, count: int)
    requires
        parse_shaped(entry),
        0 <= count < group_order(entry.fields).len(),
    ensures
        ({
            let groups = group_order(entry.fields);
            inside(types, entry.name, entry.fields, groups.take(count)).run_from(
                element_tokens(entry.fields, groups[count]),
            ) == inside(types, entry.name, entry.fields, groups.take(count + 1))
        }),
{
    let fields = entry.fields;
    let groups = group_order(fields);
    let group = groups[count];
    let before = inside(types, entry.name, fields, groups.take(count));
    assert(groups.take(count + 1).drop_last() =~= groups.take(count));
    assert(groups.take(count + 1).last() == group);
    lemma_counted(groups.take(count), group.0);
    assert(group.1 == occurrences(groups.take(count), group.0));
    assert(group.0 != "type"@);
    if group_text(fields, group) is Some {
        lemma_group_text_is_a_value(fields, group);
    }
    lemma_read_one(before, fields, group);
}

/// Reading the tokens of the first `count` element occurrences of a type.
proof fn lemma_read_groups(types: Seq<TypeView>, entry: TypeView, count: int)
    requires
        parse_shaped(entry),
        0 <= count <= group_order(entry.fields).len(),
    ensures
        ({
            let groups = group_order(entry.fields);
            inside(types, entry.name, entry.fields, Seq::empty()).run_from(
                groups_tokens(entry.fields, groups.take(count)),
            ) == inside(types, entry.name, entry.fields, groups.take(count))
        }),
    decreases count,
{
    let groups = group_order(entry.fields);
    let first = inside(types, entry.name, entry.fields, Seq::empty());
    if count == 0 {
        assert(groups.take(0) =~= Seq::<(Seq<char>, nat)>::empty());
    } else {
        lemma_read_groups(types, entry, count - 1);
        lemma_read_element(types, entry, count - 1);
        assert(groups.take(count).drop_last() =~= groups.take(count - 1));
        assert(groups.take(count).last() == groups[count - 1]);
        lemma_run_concat(
            first,
            groups_tokens(entry.fields, groups.take(count - 1)),
            element_tokens(entry.fields, groups[count - 1]),
        );
    }
}

/// Reading the tokens of one type entry appends the entry to the types
/// read so far, whatever was open before.
proof fn lemma_read_type(state: ParseState, entry: TypeView)
    requires
        parse_shaped(entry),
    ensures
        state.run_from(type_tokens(entry)).types == state.types.push(entry),
{
    let groups = group_order(entry.fields);
    let open = TokenView::Start {
        name: "type"@,
        attributes: seq![AttrView { name: "name"@, value: entry.name }],
    };
    let close = TokenView::End { name: "type"@ };
    let body = groups_tokens(entry.fields, groups);
    let first = inside(state.types, entry.name, entry.fields, Seq::empty());
    assert(name_attribute(seq![AttrView { name: "name"@, value: entry.name }]) == entry.name);
    assert(state.step(open) == first);
    lemma_run_one(state, open);
    lemma_read_groups(state.types, entry, groups.len() as int);
    assert(groups.take(groups.len() as int) =~= groups);
    lemma_run_concat(state, seq![open], body);
    lemma_run_concat(state, seq![open] + body, seq![close]);
    let last = inside(state.types, entry.name, entry.fields, groups);
    lemma_run_one(last, close);
    assert(last.current == Some(entry));
}

/// Reading the tokens of several type entries appends them in order.
proof fn lemma_read_types(state: ParseState, types: Seq<TypeView>)
    requires
        document_parse_shaped(types),
    ensures
        state.run_from(types_tokens(types)).types == state.types + types,
    decreases types.len(),
{
    if types.len() == 0 {
        assert(state.types + types =~= state.types);
    } else {
        let shorter = types.drop_last();
        assert forall|i: int| 0 <= i < shorter.len() implies parse_shaped(#[trigger] shorter[i]) by {
            assert(shorter[i] == types[i]);
        }
        lemma_read_types(state, shorter);
        assert(parse_shaped(types[types.len() - 1]));
        lemma_read_type(state.run_from(types_tokens(shorter)), types.last());
        lemma_run_concat(state, types_tokens(shorter), type_tokens(types.last()));
        assert((state.types + shorter).push(types.last()) =~= state.types + types);
    }
}

/// The round trip. Reading the tokens of a written document gives the
/// document back: the same types in the same order, each with the same
/// fields in the same order. This holds of every document whose type
/// entries have the shape that parsing gives.
pub proof fn lemma_round_trip(types: Seq<TypeView>)
    requires
        document_parse_shaped(types),
    ensures
        parsed_types(document_tokens(types)) == types,
{
    let open = TokenView::Start { name: "types"@, attributes: Seq::<AttrView>::empty() };
    let close = TokenView::End { name: "types"@ };
    let start = ParseState::start();
    assert("types"@ != "type"@) by {
        reveal_strlit("types");
        reveal_strlit("type");
        assert("types"@.len() == 5);
        assert("type"@.len() == 4);
    }
    lemma_run_one(start, open);
    let opened = start.step(open);
    assert(opened.types == Seq::<TypeView>::empty());
    lemma_read_types(opened, types);
    lemma_run_concat(start, seq![open], types_tokens(types));
    lemma_run_concat(start, seq![open] + types_tokens(types), seq![close]);
    let read = opened.run_from(types_tokens(types));
    lemma_run_one(read, close);
    assert(read.step(close).types == read.types);
    assert(Seq::<TypeView>::empty() + types =~= types);
}

/// The tokens that say something of elements or text, in order.
pub open spec fn significant(tokens: Seq<TokenView>) -> Seq<TokenView>
    decreases tokens.len(),
{
    if tokens.len() == 0 {
        Seq::empty()
    } else if tokens.last() == TokenView::Other {
        significant(tokens.drop_last())
    } else {
        significant(tokens.drop_last()).push(tokens.last())
    }
}

/// Tokens that say nothing of elements or text do not change what is read.
pub proof fn lemma_other_tokens_are_skipped(state: ParseState, tokens: Seq<TokenView>)
    ensures
        state.run_from(tokens) == state.run_from(significant(tokens)),
    decreases tokens.len(),
{
    if tokens.len() > 0 {
        lemma_other_tokens_are_skipped(state, tokens.drop_last());
        if tokens.last() != TokenView::Other {
            let kept = significant(tokens.drop_last());
            assert(kept.push(tokens.last()).drop_last() =~= kept);
        }
    }
}

/// The round trip of an input. Where an input says, between whitespace,
/// comments and the like, what a written document of the shape that
/// parsing gives says, reading it gives that document, and writing and
/// reading the document again gives it back.
pub proof fn lemma_round_trip_of_input(tokens: Seq<TokenView>, types: Seq<TypeView>)
    requires
        document_parse_shaped(types),
        significant(tokens) == document_tokens(types),
    ensures
        parsed_types(tokens) == types,
        parsed_types(document_tokens(parsed_types(tokens))) == parsed_types(tokens),
{
    lemma_other_tokens_are_skipped(ParseState::start(), tokens);
    lemma_round_trip(types);
}

} // verus!
