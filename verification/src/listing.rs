//! The order in which the entries of a directory are listed: directories
//! first, then files, each group by name.

use crate::text::code_point;
use vstd::multiset::Multiset;
use vstd::prelude::*;
use vstd::std_specs::iter::IteratorSpec;

verus! {

/// One entry of a directory.
#[derive(Clone, Debug, PartialEq, Eq)]
pub struct FileEntry {
    pub name: String,
    pub path: String,
    pub is_dir: bool,
}

/// What a `FileEntry` holds, as mathematical values.
pub struct EntryView {
    pub name: Seq<char>,
    pub path: Seq<char>,
    pub is_dir: bool,
}

impl View for FileEntry {
    type V = EntryView;

    open spec fn view(&self) -> EntryView {
        EntryView { name: self.name@, path: self.path@, is_dir: self.is_dir }
    }
}

/// What a list of entries holds, in order.
pub open spec fn entries(list: Seq<FileEntry>) -> Seq<EntryView> {
    list.map_values(|e: FileEntry| e@)
}

/// Whether `a` comes before `b` in the order of the dictionary, character
/// by character, a character with a smaller code first.
pub open spec fn text_before(a: Seq<char>, b: Seq<char>) -> bool
    decreases a.len(),
{
    if b.len() == 0 {
        false
    } else if a.len() == 0 {
        true
    } else if a[0] != b[0] {
        (a[0] as int) < (b[0] as int)
    } else {
        text_before(a.drop_first(), b.drop_first())
    }
}

/// Whether `a` is listed before `b`: a directory before a file, and of two
/// directories or two files the one whose name comes first.
pub open spec fn listed_before(a: EntryView, b: EntryView) -> bool {
    if a.is_dir == b.is_dir {
        text_before(a.name, b.name)
    } else {
        a.is_dir
    }
}

/// Whether no entry of `list` stands after one that it is listed before.
pub open spec fn in_listing_order(list: Seq<EntryView>) -> bool {
    forall|i: int, j: int| 0 <= i < j < list.len() ==> !listed_before(list[j], list[i])
}

/// How many entries at the front of `list` are listed before `entry`.
pub open spec fn place_of(entry: EntryView, list: Seq<EntryView>) -> nat
    decreases list.len(),
{
    if list.len() > 0 && listed_before(list[0], entry) {
        1 + place_of(entry, list.drop_first())
    } else {
        0
    }
}

/// The entries in listing order. Entries of which neither is listed before
/// the other keep the order they came in.
pub open spec fn listing_order(list: Seq<EntryView>) -> Seq<EntryView>
    decreases list.len(),
{
    if list.len() == 0 {
        Seq::empty()
    } else {
        let rest = listing_order(list.drop_first());
        rest.insert(place_of(list[0], rest) as int, list[0])
    }
}

/// No text comes before itself.
pub proof fn lemma_text_before_irreflexive(a: Seq<char>)
    ensures
        !text_before(a, a),
    decreases a.len(),
{
    if a.len() > 0 {
        lemma_text_before_irreflexive(a.drop_first());
    }
}

/// Of two different texts one comes before the other.
pub proof fn lemma_text_before_total(a: Seq<char>, b: Seq<char>)
    ensures
        a == b || text_before(a, b) || text_before(b, a),
    decreases a.len(),
{
    if a.len() > 0 && b.len() > 0 && a[0] == b[0] {
        lemma_text_before_total(a.drop_first(), b.drop_first());
        if a.drop_first() == b.drop_first() {
            assert(a =~= seq![a[0]] + a.drop_first());
            assert(b =~= seq![b[0]] + b.drop_first());
        }
    } else if a.len() == 0 && b.len() == 0 {
        assert(a =~= b);
    }
}

/// What comes before a text comes before all that the text comes before.
pub proof fn lemma_text_before_transitive(a: Seq<char>, b: Seq<char>, c: Seq<char>)
    requires
        text_before(a, b),
        text_before(b, c),
    ensures
        text_before(a, c),
    decreases a.len(),
{
    if a.len() > 0 && a[0] == b[0] && b[0] == c[0] {
        lemma_text_before_transitive(a.drop_first(), b.drop_first(), c.drop_first());
    }
}

/// Where `b` is not listed before `a` and `c` is not listed before `b`,
/// `c` is not listed before `a`.
pub proof fn lemma_not_before_chains(a: EntryView, b: EntryView, c: EntryView)
    requires
        !listed_before(b, a),
        !listed_before(c, b),
    ensures
        !listed_before(c, a),
{
    if listed_before(c, a) {
        if a.is_dir == b.is_dir && b.is_dir == c.is_dir {
            lemma_text_before_total(a.name, b.name);
            lemma_text_before_total(b.name, c.name);
            if a.name == b.name {
            } else if b.name == c.name {
            } else {
                lemma_text_before_transitive(c.name, a.name, b.name);
                lemma_text_before_transitive(b.name, c.name, b.name);
                lemma_text_before_irreflexive(b.name);
            }
        }
    }
}

/// Of two entries at most one is listed before the other.
pub proof fn lemma_listed_before_one_way(a: EntryView, b: EntryView)
    requires
        listed_before(a, b),
    ensures
        !listed_before(b, a),
{
    if a.is_dir == b.is_dir && text_before(b.name, a.name) {
        lemma_text_before_transitive(a.name, b.name, a.name);
        lemma_text_before_irreflexive(a.name);
    }
}

/// The entries before the place of `entry` are listed before it, and the
/// one at its place, if any, is not.
pub proof fn lemma_place_of(entry: EntryView, list: Seq<EntryView>)
    ensures
        place_of(entry, list) <= list.len(),
        forall|i: int| 0 <= i < place_of(entry, list) ==> listed_before(#[trigger] list[i], entry),
        place_of(entry, list) < list.len() ==> !listed_before(
            list[place_of(entry, list) as int],
            entry,
        ),
    decreases list.len(),
{
    if list.len() > 0 && listed_before(list[0], entry) {
        let rest = list.drop_first();
        lemma_place_of(entry, rest);
        assert forall|i: int| 0 <= i < place_of(entry, list) implies listed_before(
            #[trigger] list[i],
            entry,
        ) by {
            if i > 0 {
                assert(list[i] == rest[i - 1]);
            }
        }
        if place_of(entry, list) < list.len() {
            assert(list[place_of(entry, list) as int] == rest[place_of(entry, rest) as int]);
        }
    }
}

/// An entry put at its place into a list in listing order leaves the list
/// in listing order.
pub proof fn lemma_insert_keeps_order(entry: EntryView, list: Seq<EntryView>)
    requires
        in_listing_order(list),
    ensures
        in_listing_order(list.insert(place_of(entry, list) as int, entry)),
{
    let p = place_of(entry, list) as int;
    let longer = list.insert(p, entry);
    lemma_place_of(entry, list);
    assert forall|i: int, j: int| 0 <= i < j < longer.len() implies !listed_before(
        longer[j],
        longer[i],
    ) by {
        if j < p {
            assert(longer[i] == list[i] && longer[j] == list[j]);
        } else if j == p {
            assert(longer[i] == list[i]);
            lemma_listed_before_one_way(list[i], entry);
        } else if i < p {
            assert(longer[i] == list[i] && longer[j] == list[j - 1]);
        } else if i == p {
            assert(longer[j] == list[j - 1]);
            if j - 1 > p {
                lemma_not_before_chains(entry, list[p], list[j - 1]);
            }
        } else {
            assert(longer[i] == list[i - 1] && longer[j] == list[j - 1]);
        }
    }
}

/// The listing order of any entries is in listing order.
pub proof fn lemma_listing_order_is_ordered(list: Seq<EntryView>)
    ensures
        in_listing_order(listing_order(list)),
    decreases list.len(),
{
    if list.len() > 0 {
        lemma_listing_order_is_ordered(list.drop_first());
        lemma_insert_keeps_order(list[0], listing_order(list.drop_first()));
    }
}

/// The listing order holds each entry as often as the list does: nothing
/// is lost and nothing added.
pub proof fn lemma_listing_order_keeps_entries(list: Seq<EntryView>)
    ensures
        listing_order(list).to_multiset() == list.to_multiset(),
        listing_order(list).len() == list.len(),
    decreases list.len(),
{
    broadcast use vstd::seq_lib::group_to_multiset_ensures;

    if list.len() > 0 {
        let rest = listing_order(list.drop_first());
        lemma_listing_order_keeps_entries(list.drop_first());
        lemma_place_of(list[0], rest);
        vstd::seq_lib::to_multiset_insert(rest, place_of(list[0], rest) as int, list[0]);
        assert(list =~= seq![list[0]] + list.drop_first());
        vstd::seq_lib::lemma_multiset_commutative(seq![list[0]], list.drop_first());
        assert(seq![list[0]].to_multiset() =~= Multiset::<EntryView>::empty().insert(list[0])) by {
            assert(seq![list[0]] =~= Seq::<EntryView>::empty().push(list[0]));
        }
        assert(list.to_multiset() =~= list.drop_first().to_multiset().insert(list[0]));
    } else {
        assert(listing_order(list) =~= list);
    }
}

/// Whether `a` comes before `b` in the order of the dictionary.
pub fn comes_first(a: &str, b: &str) -> (r: bool)
    ensures
        r == text_before(a@, b@),
{
    broadcast use vstd::string::group_string_axioms;

    let mut rest_a = a.chars();
    let mut rest_b = b.chars();
    let ghost mut seen: int = 0;
    proof {
        assert(a@.skip(0) =~= a@);
    }
    loop
        invariant
            0 <= seen <= a@.len(),
            rest_a.remaining() == a@.skip(seen),
            text_before(a@, b@) == text_before(rest_a.remaining(), rest_b.remaining()),
        decreases a@.len() - seen,
    {
        let ghost before_a = rest_a.remaining();
        let next_a = rest_a.next();
        let next_b = rest_b.next();
        match next_b {
            None => {
                return false;
            },
            Some(y) => match next_a {
                None => {
                    return true;
                },
                Some(x) => {
                    if x != y {
                        return code_point(x) < code_point(y);
                    }
                    proof {
                        assert(before_a.drop_first() =~= a@.skip(seen + 1));
                        seen = seen + 1;
                    }
                },
            },
        }
    }
}

/// Whether `a` is listed before `b`.
pub fn precedes(a: &FileEntry, b: &FileEntry) -> (r: bool)
    ensures
        r == listed_before(a@, b@),
{
    if a.is_dir == b.is_dir {
        comes_first(a.name.as_str(), b.name.as_str())
    } else {
        a.is_dir
    }
}

/// Puts the entries of a directory into listing order: directories first,
/// then files, each group by name. Entries of which neither is listed
/// before the other keep the order they came in.
pub fn sort_entries(list: Vec<FileEntry>) -> (sorted: Vec<FileEntry>)
    ensures
        entries(sorted@) == listing_order(entries(list@)),
        in_listing_order(entries(sorted@)),
        entries(sorted@).to_multiset() == entries(list@).to_multiset(),
{
    let ghost all = entries(list@);
    let mut list = list;
    let mut sorted: Vec<FileEntry> = Vec::new();
    proof {
        assert(all.skip(all.len() as int) =~= Seq::<EntryView>::empty());
        assert(entries(sorted@) =~= Seq::<EntryView>::empty());
    }
    while list.len() > 0
        invariant
            list.len() <= all.len(),
            entries(list@) == all.take(list.len() as int),
            entries(sorted@) == listing_order(all.skip(list.len() as int)),
        decreases list.len(),
    {
        let ghost before = entries(list@);
        let ghost done = entries(sorted@);
        let entry = list.pop().unwrap();
        proof {
            assert(entry@ == before[before.len() - 1]);
            assert(entries(list@) =~= all.take(list.len() as int));
            let tail = all.skip(list.len() as int);
            assert(tail[0] == entry@);
            assert(tail.drop_first() =~= all.skip(list.len() + 1));
            lemma_place_of(entry@, done);
            assert(done.skip(0) =~= done);
        }
        let mut place: usize = 0;
        while place < sorted.len() && precedes(&sorted[place], &entry)
            invariant
                place <= sorted.len(),
                entries(sorted@) == done,
                place_of(entry@, done) == place + place_of(entry@, done.skip(place as int)),
            decreases sorted.len() - place,
        {
            proof {
                let here = done.skip(place as int);
                assert(here[0] == sorted@[place as int]@);
                assert(here.drop_first() =~= done.skip(place + 1));
            }
            place += 1;
        }
        proof {
            let here = done.skip(place as int);
            if place < sorted.len() {
                assert(here[0] == sorted@[place as int]@);
            }
            assert(place_of(entry@, done) == place);
            assert(entries(sorted@.insert(place as int, entry)) =~= done.insert(
                place as int,
                entry@,
            ));
        }
        sorted.insert(place, entry);
    }
    proof {
        assert(all.skip(0) =~= all);
        lemma_listing_order_is_ordered(all);
        lemma_listing_order_keeps_entries(all);
    }
    sorted
}

} // verus!
