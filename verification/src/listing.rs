//! The order of a directory listing: directories first, then files, each
//! by name without regard to case.

use vstd::prelude::*;
use crate::picker::{Entry, EntryView, entries_view};

verus! {

/// The text that `str::to_lowercase` gives.
pub uninterp spec fn lowercased(text: Seq<char>) -> Seq<char>;

/// `str::to_lowercase`, character by character. The result is a function
/// of the text alone; the contract gives it the name [`lowercased`] and
/// claims nothing else of it.
#[verifier::external_body]
pub(crate) fn lowercase_chars(text: &str) -> (r: Vec<char>)
    ensures
        r@ == lowercased(text@),
{
    text.to_lowercase().chars().collect()
}

/// Whether `a` comes before `b` in the order of strings: at the first
/// place where they differ `a` has the lower code point, or `a` ends
/// there and `b` goes on.
pub open spec fn text_before(a: Seq<char>, b: Seq<char>) -> bool
    decreases a.len(),
{
    if b.len() == 0 {
        false
    } else if a.len() == 0 {
        true
    } else if a.first() != b.first() {
        (a.first() as u32) < (b.first() as u32)
    } else {
        text_before(a.drop_first(), b.drop_first())
    }
}

/// Whether entry `a` is listed before entry `b`: a directory before a
/// file, and among the same kind by lower-cased name.
pub open spec fn listed_before(a: EntryView, b: EntryView) -> bool {
    if a.is_dir != b.is_dir {
        a.is_dir
    } else {
        text_before(lowercased(a.name), lowercased(b.name))
    }
}

/// Of two texts at most one comes before the other.
pub proof fn lemma_text_before_asymmetric(a: Seq<char>, b: Seq<char>)
    requires
        text_before(a, b),
    ensures
        !text_before(b, a),
    decreases a.len(),
{
    if a.len() > 0 && b.len() > 0 && a.first() == b.first() {
        lemma_text_before_asymmetric(a.drop_first(), b.drop_first());
    }
}

/// What comes before a text comes before everything after that text.
pub proof fn lemma_text_before_transitive(a: Seq<char>, b: Seq<char>, c: Seq<char>)
    requires
        text_before(a, b),
        text_before(b, c),
    ensures
        text_before(a, c),
    decreases a.len(),
{
    if a.len() > 0 && a.first() == b.first() && b.first() == c.first() {
        lemma_text_before_transitive(a.drop_first(), b.drop_first(), c.drop_first());
    }
}

/// Of two entries at most one is listed before the other.
pub proof fn lemma_listed_before_asymmetric(a: EntryView, b: EntryView)
    requires
        listed_before(a, b),
    ensures
        !listed_before(b, a),
{
    if a.is_dir == b.is_dir {
        lemma_text_before_asymmetric(lowercased(a.name), lowercased(b.name));
    }
}

/// What is listed before an entry is listed before everything after it.
pub proof fn lemma_listed_before_transitive(a: EntryView, b: EntryView, c: EntryView)
    requires
        listed_before(a, b),
        listed_before(b, c),
    ensures
        listed_before(a, c),
{
    if a.is_dir == b.is_dir && b.is_dir == c.is_dir {
        lemma_text_before_transitive(lowercased(a.name), lowercased(b.name), lowercased(c.name));
    }
}

/// No entry of the list is listed before one that stands earlier.
pub open spec fn in_order(entries: Seq<EntryView>) -> bool {
    forall|i: int, j: int| 0 <= i < j < entries.len() ==> !listed_before(entries[j], entries[i])
}

/// Where a new entry goes into an ordered list: before the first entry
/// that it is listed before, or at the end.
pub open spec fn place_of(entries: Seq<EntryView>, entry: EntryView) -> int
    decreases entries.len(),
{
    if entries.len() == 0 {
        0
    } else if listed_before(entry, entries.first()) {
        0
    } else {
        1 + place_of(entries.drop_first(), entry)
    }
}

/// The entries in listing order. Each entry in turn goes before the first
/// that it is listed before, so entries that tie keep the order they came
/// in.
pub open spec fn listing_order(entries: Seq<EntryView>) -> Seq<EntryView>
    decreases entries.len(),
{
    if entries.len() == 0 {
        Seq::empty()
    } else {
        let before = listing_order(entries.drop_last());
        before.insert(place_of(before, entries.last()), entries.last())
    }
}

/// The place of a new entry is a position of the list or its end; the new
/// entry is listed before none of the entries ahead of the place, and
/// before the entry at the place.
pub proof fn lemma_place_of(entries: Seq<EntryView>, entry: EntryView)
    ensures
        0 <= place_of(entries, entry) <= entries.len(),
        forall|k: int| 0 <= k < place_of(entries, entry) ==> !listed_before(entry, #[trigger] entries[k]),
        place_of(entries, entry) < entries.len() ==> listed_before(entry, entries[place_of(entries, entry)]),
    decreases entries.len(),
{
    if entries.len() > 0 && !listed_before(entry, entries.first()) {
        let rest = entries.drop_first();
        lemma_place_of(rest, entry);
        assert forall|k: int| 0 <= k < place_of(entries, entry) implies !listed_before(
            entry,
            #[trigger] entries[k],
        ) by {
            if k > 0 {
                assert(entries[k] == rest[k - 1]);
            }
        }
        if place_of(entries, entry) < entries.len() {
            assert(entries[place_of(entries, entry)] == rest[place_of(rest, entry)]);
        }
    }
}

/// Putting a new entry at its place keeps an ordered list ordered.
pub proof fn lemma_insert_in_order(entries: Seq<EntryView>, entry: EntryView)
    requires
        in_order(entries),
    ensures
        in_order(entries.insert(place_of(entries, entry), entry)),
{
    let place = place_of(entries, entry);
    let after = entries.insert(place, entry);
    lemma_place_of(entries, entry);
    assert forall|i: int, j: int| 0 <= i < j < after.len() implies !listed_before(after[j], after[i]) by {
        if j == place {
            assert(after[i] == entries[i]);
        } else if i == place {
            assert(after[j] == entries[j - 1]);
            if listed_before(after[j], entry) {
                lemma_listed_before_transitive(after[j], entry, entries[place]);
                if j - 1 == place {
                    lemma_listed_before_asymmetric(entry, entries[place]);
                }
            }
        } else {
            let from_i = if i < place { i } else { i - 1 };
            let from_j = if j < place { j } else { j - 1 };
            assert(after[i] == entries[from_i]);
            assert(after[j] == entries[from_j]);
        }
    }
}

/// The listing order is ordered, and holds the entries it was given, each
/// as often as it was given.
pub proof fn lemma_listing_order(entries: Seq<EntryView>)
    ensures
        in_order(listing_order(entries)),
        listing_order(entries).to_multiset() == entries.to_multiset(),
        listing_order(entries).len() == entries.len(),
    decreases entries.len(),
{
    if entries.len() == 0 {
        assert(listing_order(entries) =~= entries);
    } else {
        let shorter = entries.drop_last();
        lemma_listing_order(shorter);
        let before = listing_order(shorter);
        lemma_place_of(before, entries.last());
        lemma_insert_in_order(before, entries.last());
        vstd::seq_lib::to_multiset_insert(before, place_of(before, entries.last()), entries.last());
        vstd::seq_lib::to_multiset_build(shorter, entries.last());
        assert(shorter.push(entries.last()) =~= entries);
    }
}

/// Whether `a` comes before `b` in the order of strings.
fn chars_before(a: &Vec<char>, b: &Vec<char>) -> (r: bool)
    ensures
        r == text_before(a@, b@),
{
    let mut i: usize = 0;
    assert(a@.skip(0) =~= a@);
    assert(b@.skip(0) =~= b@);
    while i < a.len() && i < b.len()
        invariant
            i <= a.len(),
            i <= b.len(),
            text_before(a@, b@) == text_before(a@.skip(i as int), b@.skip(i as int)),
        decreases a.len() - i,
    {
        assert(a@.skip(i as int).first() == a@[i as int]);
        assert(b@.skip(i as int).first() == b@[i as int]);
        if a[i] != b[i] {
            return (a[i] as u32) < (b[i] as u32);
        }
        assert(a@.skip(i as int).drop_first() =~= a@.skip(i as int + 1));
        assert(b@.skip(i as int).drop_first() =~= b@.skip(i as int + 1));
        i += 1;
    }
    i < b.len()
}

/// Whether an entry with the given kind and lower-cased name is listed
/// before another.
fn goes_before(is_dir: bool, key: &Vec<char>, other_is_dir: bool, other_key: &Vec<char>) -> (r: bool)
    ensures
        r == (if is_dir != other_is_dir {
            is_dir
        } else {
            text_before(key@, other_key@)
        }),
{
    if is_dir != other_is_dir {
        is_dir
    } else {
        chars_before(key, other_key)
    }
}

/// Puts the entries in listing order.
pub fn sort_entries(entries: &Vec<Entry>) -> (r: Vec<Entry>)
    ensures
        entries_view(r@) == listing_order(entries_view(entries@)),
{
    let ghost all = entries_view(entries@);
    let mut sorted: Vec<Entry> = Vec::new();
    let mut keys: Vec<Vec<char>> = Vec::new();
    let mut taken: usize = 0;
    assert(all.take(0) =~= Seq::<EntryView>::empty());
    assert(entries_view(sorted@) =~= listing_order(all.take(0)));
    while taken < entries.len()
        invariant
            taken <= entries.len(),
            all == entries_view(entries@),
            entries_view(sorted@) == listing_order(all.take(taken as int)),
            keys@.len() == sorted@.len(),
            forall|k: int| 0 <= k < keys@.len() ==> (#[trigger] keys@[k])@ == lowercased(sorted@[k].name@),
        decreases entries.len() - taken,
    {
        let entry = Entry { name: entries[taken].name.clone(), is_dir: entries[taken].is_dir };
        assert(entry@ == all[taken as int]);
        assert(all.take(taken as int + 1).drop_last() =~= all.take(taken as int));
        assert(all.take(taken as int + 1).last() == entry@);
        let key = lowercase_chars(entry.name.as_str());
        let ghost before = entries_view(sorted@);
        let mut place: usize = 0;
        assert(before.skip(0) =~= before);
        while place < sorted.len() && !goes_before(
            entry.is_dir,
            &key,
            sorted[place].is_dir,
            &keys[place],
        )
            invariant
                place <= sorted.len(),
                before == entries_view(sorted@),
                keys@.len() == sorted@.len(),
                key@ == lowercased(entry.name@),
                forall|k: int| 0 <= k < keys@.len() ==> (#[trigger] keys@[k])@ == lowercased(sorted@[k].name@),
                place_of(before, entry@) == place + place_of(before.skip(place as int), entry@),
            decreases sorted.len() - place,
        {
            assert(before.skip(place as int).first() == sorted@[place as int]@);
            assert(before.skip(place as int).drop_first() =~= before.skip(place as int + 1));
            place += 1;
        }
        proof {
            if place < sorted.len() {
                assert(before.skip(place as int).first() == sorted@[place as int]@);
            } else {
                assert(before.skip(place as int) =~= Seq::<EntryView>::empty());
            }
        }
        sorted.insert(place, entry);
        keys.insert(place, key);
        assert(entries_view(sorted@) =~= before.insert(place as int, entry@));
        taken += 1;
    }
    assert(all.take(entries.len() as int) =~= all);
    sorted
}

} // verus!
