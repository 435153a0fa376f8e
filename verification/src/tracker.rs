//! Cycle-tracker entries in the order of their names.

use vstd::prelude::*;
use vstd::utf8;

verus! {

/// Cycles counted under a name.
#[derive(Clone, Debug, PartialEq, Eq)]
pub struct CycleEntry {
    /// What the cycles were spent in.
    pub name: String,
    /// Number of cycles.
    pub cycles: u64,
}

impl CycleEntry {
    /// The name and the cycles.
    pub open spec fn view(&self) -> (Seq<char>, u64) {
        (self.name@, self.cycles)
    }
}

/// `a` comes before `b` in the lexicographic order of bytes.
pub open spec fn bytes_before(a: Seq<u8>, b: Seq<u8>) -> bool
    decreases a.len(),
{
    if b.len() == 0 {
        false
    } else if a.len() == 0 {
        true
    } else if a[0] != b[0] {
        a[0] < b[0]
    } else {
        bytes_before(a.drop_first(), b.drop_first())
    }
}

/// `a` comes before `b` in the order of strings, that of their UTF-8 bytes.
pub open spec fn name_before(a: Seq<char>, b: Seq<char>) -> bool {
    bytes_before(utf8::encode_utf8(a), utf8::encode_utf8(b))
}

/// What entries say, a later one overriding an earlier one of its name.
pub open spec fn cycles_by_name(entries: Seq<CycleEntry>) -> Map<Seq<char>, u64>
    decreases entries.len(),
{
    if entries.len() == 0 {
        Map::empty()
    } else {
        cycles_by_name(entries.drop_last()).insert(entries.last().name@, entries.last().cycles)
    }
}

/// Entries are in the order of their names, and no name occurs twice.
pub open spec fn in_name_order(entries: Seq<CycleEntry>) -> bool {
    forall|i: int, j: int|
        0 <= i < j < entries.len() ==> name_before(
            #[trigger] entries[i].name@,
            #[trigger] entries[j].name@,
        )
}

/// No name occurs twice.
pub open spec fn distinct_names(entries: Seq<CycleEntry>) -> bool {
    forall|i: int, j: int|
        0 <= i < j < entries.len() ==> #[trigger] entries[i].name@ != #[trigger] entries[j].name@
}

/// `a` holds every pair of a name and its cycles that `b` holds.
pub open spec fn holds_all(a: Seq<CycleEntry>, b: Seq<CycleEntry>) -> bool {
    forall|j: int|
        0 <= j < b.len() ==> exists|i: int|
            0 <= i < a.len() && #[trigger] a[i]@ == (#[trigger] b[j])@
}

/// The order of bytes is total.
proof fn lemma_bytes_total(a: Seq<u8>, b: Seq<u8>)
    ensures
        bytes_before(a, b) || bytes_before(b, a) || a == b,
        !(bytes_before(a, b) && bytes_before(b, a)),
        !bytes_before(a, a),
    decreases a.len(),
{
    if a.len() > 0 {
        lemma_bytes_total(a.drop_first(), a.drop_first());
    }
    if a.len() > 0 && b.len() > 0 && a[0] == b[0] {
        lemma_bytes_total(a.drop_first(), b.drop_first());
        if a.drop_first() == b.drop_first() {
            assert(a =~= seq![a[0]] + a.drop_first());
            assert(b =~= seq![b[0]] + b.drop_first());
        }
    } else if a.len() == 0 && b.len() == 0 {
        assert(a =~= b);
    }
}

/// The order of bytes is transitive.
proof fn lemma_bytes_transitive(a: Seq<u8>, b: Seq<u8>, c: Seq<u8>)
    requires
        bytes_before(a, b),
        bytes_before(b, c),
    ensures
        bytes_before(a, c),
    decreases a.len(),
{
    if a.len() > 0 && a[0] == b[0] && b[0] == c[0] {
        lemma_bytes_transitive(a.drop_first(), b.drop_first(), c.drop_first());
    }
}

/// Names are totally ordered.
pub proof fn lemma_names_total(a: Seq<char>, b: Seq<char>)
    ensures
        name_before(a, b) || name_before(b, a) || a == b,
        !(name_before(a, b) && name_before(b, a)),
        !name_before(a, a),
{
    lemma_bytes_total(utf8::encode_utf8(a), utf8::encode_utf8(b));
    utf8::encode_utf8_decode_utf8(a);
    utf8::encode_utf8_decode_utf8(b);
}

/// The order of names is transitive.
pub proof fn lemma_names_transitive(a: Seq<char>, b: Seq<char>, c: Seq<char>)
    requires
        name_before(a, b),
        name_before(b, c),
    ensures
        name_before(a, c),
{
    lemma_bytes_transitive(utf8::encode_utf8(a), utf8::encode_utf8(b), utf8::encode_utf8(c));
}

/// How one name stands to another.
enum NameOrder {
    Before,
    Same,
    After,
}

/// Compares two names.
fn order_names(a: &str, b: &str) -> (r: NameOrder)
    ensures
        match r {
            NameOrder::Before => name_before(a@, b@),
            NameOrder::Same => a@ == b@,
            NameOrder::After => name_before(b@, a@),
        },
{
    let x = a.as_bytes();
    let y = b.as_bytes();
    let mut i: usize = 0;
    assert(x@.skip(0) =~= x@);
    assert(y@.skip(0) =~= y@);
    while i < x.len() && i < y.len()
        invariant
            i <= x@.len(),
            i <= y@.len(),
            x@ == utf8::encode_utf8(a@),
            y@ == utf8::encode_utf8(b@),
            x@.take(i as int) == y@.take(i as int),
            bytes_before(x@, y@) == bytes_before(x@.skip(i as int), y@.skip(i as int)),
            bytes_before(y@, x@) == bytes_before(y@.skip(i as int), x@.skip(i as int)),
        decreases x@.len() - i,
    {
        if x[i] < y[i] {
            return NameOrder::Before;
        }
        if x[i] > y[i] {
            return NameOrder::After;
        }
        assert(x@.skip(i as int).drop_first() =~= x@.skip(i + 1));
        assert(y@.skip(i as int).drop_first() =~= y@.skip(i + 1));
        assert(x@.take(i + 1) =~= x@.take(i as int).push(x@[i as int]));
        assert(y@.take(i + 1) =~= y@.take(i as int).push(y@[i as int]));
        i = i + 1;
    }
    if i < y.len() {
        NameOrder::Before
    } else if i < x.len() {
        NameOrder::After
    } else {
        proof {
            assert(x@ =~= x@.take(i as int));
            assert(y@ =~= y@.take(i as int));
            utf8::encode_utf8_decode_utf8(a@);
            utf8::encode_utf8_decode_utf8(b@);
        }
        NameOrder::Same
    }
}

/// Ordered entries have names of their own.
proof fn lemma_ordered_is_distinct(entries: Seq<CycleEntry>)
    requires
        in_name_order(entries),
    ensures
        distinct_names(entries),
{
    assert forall|i: int, j: int| 0 <= i < j < entries.len() implies #[trigger] entries[i].name@
        != #[trigger] entries[j].name@ by {
        lemma_names_total(entries[i].name@, entries[j].name@);
    }
}

/// Where no name occurs twice, what entries say of a name is what the entry of
/// that name says.
proof fn lemma_distinct_entries(entries: Seq<CycleEntry>)
    requires
        distinct_names(entries),
    ensures
        forall|i: int|
            0 <= i < entries.len() ==> #[trigger] cycles_by_name(entries).contains_pair(
                entries[i].name@,
                entries[i].cycles,
            ),
        forall|name: Seq<char>| #[trigger]
            cycles_by_name(entries).contains_key(name) ==> exists|i: int|
                0 <= i < entries.len() && #[trigger] entries[i].name@ == name,
    decreases entries.len(),
{
    if entries.len() > 0 {
        let init = entries.drop_last();
        lemma_distinct_entries(init);
        assert forall|i: int| 0 <= i < entries.len() implies #[trigger] cycles_by_name(
            entries,
        ).contains_pair(entries[i].name@, entries[i].cycles) by {
            if i < init.len() {
                assert(init[i] == entries[i]);
                assert(cycles_by_name(init).contains_pair(init[i].name@, init[i].cycles));
                assert(entries[i].name@ != entries[entries.len() - 1].name@);
            }
        }
        assert forall|name: Seq<char>| #[trigger]
            cycles_by_name(entries).contains_key(name) implies exists|i: int|
            0 <= i < entries.len() && #[trigger] entries[i].name@ == name by {
            if name != entries.last().name@ {
                assert(cycles_by_name(init).contains_key(name));
                let i = choose|i: int| 0 <= i < init.len() && #[trigger] init[i].name@ == name;
                assert(entries[i].name@ == name);
            } else {
                assert(entries[entries.len() - 1].name@ == name);
            }
        }
    }
}

/// Putting an entry between those before it and those after it adds it to what
/// they say.
proof fn lemma_inserted(entries: Seq<CycleEntry>, at: int, entry: CycleEntry)
    requires
        in_name_order(entries),
        0 <= at <= entries.len(),
        forall|i: int| 0 <= i < at ==> name_before(#[trigger] entries[i].name@, entry.name@),
        forall|i: int|
            at <= i < entries.len() ==> name_before(entry.name@, #[trigger] entries[i].name@),
    ensures
        in_name_order(entries.insert(at, entry)),
        cycles_by_name(entries.insert(at, entry)) == cycles_by_name(entries).insert(
            entry.name@,
            entry.cycles,
        ),
    decreases entries.len() - at,
{
    let more = entries.insert(at, entry);
    assert forall|i: int, j: int| 0 <= i < j < more.len() implies name_before(
        #[trigger] more[i].name@,
        #[trigger] more[j].name@,
    ) by {
        if j < at {
            assert(more[i] == entries[i] && more[j] == entries[j]);
        } else if i < at && j == at {
            assert(more[i] == entries[i]);
        } else if i < at {
            assert(more[i] == entries[i] && more[j] == entries[j - 1]);
        } else if i == at {
            assert(more[j] == entries[j - 1]);
        } else {
            assert(more[i] == entries[i - 1] && more[j] == entries[j - 1]);
        }
    }
    if at == entries.len() {
        assert(more.drop_last() =~= entries);
    } else {
        let init = entries.drop_last();
        assert(more.drop_last() =~= init.insert(at, entry));
        lemma_inserted(init, at, entry);
        let last = entries[entries.len() - 1];
        assert(name_before(entry.name@, last.name@));
        lemma_names_total(entry.name@, last.name@);
        assert(cycles_by_name(more) =~= cycles_by_name(entries).insert(entry.name@, entry.cycles));
    }
}

/// Replacing an entry by one of its name overrides what it says.
proof fn lemma_replaced(entries: Seq<CycleEntry>, at: int, entry: CycleEntry)
    requires
        in_name_order(entries),
        0 <= at < entries.len(),
        entries[at].name@ == entry.name@,
    ensures
        in_name_order(entries.update(at, entry)),
        cycles_by_name(entries.update(at, entry)) == cycles_by_name(entries).insert(
            entry.name@,
            entry.cycles,
        ),
    decreases entries.len() - at,
{
    let other = entries.update(at, entry);
    assert forall|i: int, j: int| 0 <= i < j < other.len() implies name_before(
        #[trigger] other[i].name@,
        #[trigger] other[j].name@,
    ) by {
        assert(other[i].name@ == entries[i].name@ && other[j].name@ == entries[j].name@);
    }
    let init = entries.drop_last();
    if at == entries.len() - 1 {
        assert(other.drop_last() =~= init);
    } else {
        assert(other.drop_last() =~= init.update(at, entry));
        lemma_replaced(init, at, entry);
        let last = entries[entries.len() - 1];
        assert(name_before(entries[at].name@, last.name@));
        lemma_names_total(entry.name@, last.name@);
    }
    assert(cycles_by_name(other) =~= cycles_by_name(entries).insert(entry.name@, entry.cycles));
}

/// Adds an entry, overriding the entry of its name if there is one.
fn add_entry(entries: &mut Vec<CycleEntry>, entry: CycleEntry)
    requires
        in_name_order(old(entries)@),
    ensures
        in_name_order(final(entries)@),
        cycles_by_name(final(entries)@) == cycles_by_name(old(entries)@).insert(
            entry.name@,
            entry.cycles,
        ),
{
    let mut at: usize = 0;
    while at < entries.len()
        invariant
            entries@ == old(entries)@,
            in_name_order(entries@),
            at <= entries@.len(),
            forall|i: int| 0 <= i < at ==> name_before(#[trigger] entries@[i].name@, entry.name@),
        decreases entries@.len() - at,
    {
        match order_names(entries[at].name.as_str(), entry.name.as_str()) {
            NameOrder::Before => {
                at = at + 1;
            },
            NameOrder::Same => {
                proof {
                    lemma_replaced(entries@, at as int, entry);
                }
                entries.set(at, entry);
                return;
            },
            NameOrder::After => {
                proof {
                    assert forall|i: int| at <= i < entries@.len() implies name_before(
                        entry.name@,
                        #[trigger] entries@[i].name@,
                    ) by {
                        if i > at {
                            lemma_names_transitive(
                                entry.name@,
                                entries@[at as int].name@,
                                entries@[i].name@,
                            );
                        }
                    }
                    lemma_inserted(entries@, at as int, entry);
                }
                entries.insert(at, entry);
                return;
            },
        }
    }
    proof {
        lemma_inserted(entries@, at as int, entry);
    }
    entries.insert(at, entry);
}

/// Puts entries in the order of their names. Of entries with one name the last
/// one counts.
pub fn order_entries(entries: Vec<CycleEntry>) -> (r: Vec<CycleEntry>)
    ensures
        in_name_order(r@),
        cycles_by_name(r@) == cycles_by_name(entries@),
{
    let mut r: Vec<CycleEntry> = Vec::new();
    let count = entries.len();
    let mut i: usize = 0;
    while i < count
        invariant
            i <= count == entries@.len(),
            in_name_order(r@),
            cycles_by_name(r@) == cycles_by_name(entries@.take(i as int)),
        decreases count - i,
    {
        assert(entries@.take(i + 1).drop_last() =~= entries@.take(i as int));
        let entry = CycleEntry { name: entries[i].name.clone(), cycles: entries[i].cycles };
        add_entry(&mut r, entry);
        i = i + 1;
    }
    assert(entries@.take(i as int) =~= entries@);
    r
}

/// Ordered entries are settled by what they say: two lists that say the same
/// hold the same names and cycles in the same places.
pub proof fn law_order_is_canonical(a: Seq<CycleEntry>, b: Seq<CycleEntry>)
    requires
        in_name_order(a),
        in_name_order(b),
        cycles_by_name(a) == cycles_by_name(b),
    ensures
        a.len() == b.len(),
        forall|i: int| 0 <= i < a.len() ==> (#[trigger] a[i])@ == b[i]@,
    decreases a.len() + b.len(),
{
    lemma_ordered_is_distinct(a);
    lemma_ordered_is_distinct(b);
    lemma_distinct_entries(a);
    lemma_distinct_entries(b);
    if a.len() == 0 {
        if b.len() > 0 {
            assert(cycles_by_name(b).contains_pair(b[0].name@, b[0].cycles));
        }
    } else if b.len() == 0 {
        assert(cycles_by_name(a).contains_pair(a[0].name@, a[0].cycles));
    } else {
        let x = a.last();
        let y = b.last();
        assert(cycles_by_name(a).contains_pair(a[a.len() - 1].name@, x.cycles));
        assert(cycles_by_name(b).contains_pair(b[b.len() - 1].name@, y.cycles));
        let i = choose|i: int| 0 <= i < b.len() && #[trigger] b[i].name@ == x.name@;
        let j = choose|j: int| 0 <= j < a.len() && #[trigger] a[j].name@ == y.name@;
        if i < b.len() - 1 {
            assert(name_before(b[i].name@, b[b.len() - 1].name@));
            if j < a.len() - 1 {
                assert(name_before(a[j].name@, a[a.len() - 1].name@));
            }
            lemma_names_total(x.name@, y.name@);
        }
        assert(x.name@ == y.name@);
        let ra = a.drop_last();
        let rb = b.drop_last();
        lemma_distinct_entries(ra);
        lemma_distinct_entries(rb);
        assert(!cycles_by_name(ra).contains_key(x.name@)) by {
            if cycles_by_name(ra).contains_key(x.name@) {
                let k = choose|k: int| 0 <= k < ra.len() && #[trigger] ra[k].name@ == x.name@;
                assert(name_before(a[k].name@, a[a.len() - 1].name@));
                lemma_names_total(x.name@, x.name@);
            }
        }
        assert(!cycles_by_name(rb).contains_key(x.name@)) by {
            if cycles_by_name(rb).contains_key(x.name@) {
                let k = choose|k: int| 0 <= k < rb.len() && #[trigger] rb[k].name@ == x.name@;
                assert(name_before(b[k].name@, b[b.len() - 1].name@));
                lemma_names_total(x.name@, x.name@);
            }
        }
        assert(cycles_by_name(ra) =~= cycles_by_name(a).remove(x.name@));
        assert(cycles_by_name(rb) =~= cycles_by_name(b).remove(x.name@));
        law_order_is_canonical(ra, rb);
        assert forall|k: int| 0 <= k < a.len() implies (#[trigger] a[k])@ == b[k]@ by {
            if k < ra.len() {
                assert(ra[k]@ == rb[k]@);
            }
        }
    }
}

/// A table with one entry to a name may be walked in any order: two walks that
/// hold the same pairs say the same.
pub proof fn law_walk_order_is_immaterial(a: Seq<CycleEntry>, b: Seq<CycleEntry>)
    requires
        distinct_names(a),
        distinct_names(b),
        holds_all(a, b),
        holds_all(b, a),
    ensures
        cycles_by_name(a) == cycles_by_name(b),
{
    lemma_distinct_entries(a);
    lemma_distinct_entries(b);
    lemma_says_all(a, b);
    lemma_says_all(b, a);
    assert(cycles_by_name(a) =~= cycles_by_name(b));
}

/// What `b` says, `a` says too, where it holds all that `b` holds.
proof fn lemma_says_all(a: Seq<CycleEntry>, b: Seq<CycleEntry>)
    requires
        distinct_names(a),
        distinct_names(b),
        holds_all(a, b),
    ensures
        forall|name: Seq<char>| #[trigger]
            cycles_by_name(b).contains_key(name) ==> cycles_by_name(a).contains_pair(
                name,
                cycles_by_name(b)[name],
            ),
{
    lemma_distinct_entries(a);
    lemma_distinct_entries(b);
    assert forall|name: Seq<char>| #[trigger]
        cycles_by_name(b).contains_key(name) implies cycles_by_name(a).contains_pair(
        name,
        cycles_by_name(b)[name],
    ) by {
        let j = choose|j: int| 0 <= j < b.len() && #[trigger] b[j].name@ == name;
        assert(cycles_by_name(b).contains_pair(b[j].name@, b[j].cycles));
        let i = choose|i: int| 0 <= i < a.len() && #[trigger] a[i]@ == b[j]@;
        assert(cycles_by_name(a).contains_pair(a[i].name@, a[i].cycles));
    }
}

/// One name comes before another exactly where it is a proper prefix of it in
/// bytes, or has the lower byte at the first place where they differ.
pub proof fn law_names_are_ordered_by_bytes(a: Seq<char>, b: Seq<char>)
    ensures
        name_before(a, b) <==> exists|k: int|
            first_difference(utf8::encode_utf8(a), utf8::encode_utf8(b), k),
{
    lemma_bytes_differ(utf8::encode_utf8(a), utf8::encode_utf8(b));
}

/// Up to `k` the bytes are the same, and there `a` ends or has the lower byte.
pub open spec fn first_difference(a: Seq<u8>, b: Seq<u8>, k: int) -> bool {
    &&& 0 <= k <= a.len()
    &&& k < b.len()
    &&& a.take(k) == b.take(k)
    &&& k == a.len() || a[k] < b[k]
}

proof fn lemma_bytes_differ(a: Seq<u8>, b: Seq<u8>)
    ensures
        bytes_before(a, b) <==> exists|k: int| first_difference(a, b, k),
    decreases a.len(),
{
    if b.len() > 0 && a.len() == 0 {
        assert(a.take(0) =~= b.take(0));
        assert(first_difference(a, b, 0));
    } else if b.len() > 0 {
        let x = a.drop_first();
        let y = b.drop_first();
        if a[0] != b[0] {
            if a[0] < b[0] {
                assert(a.take(0) =~= b.take(0));
                assert(first_difference(a, b, 0));
            } else {
                assert forall|k: int| !first_difference(a, b, k) by {
                    if 0 < k <= a.len() && k < b.len() {
                        assert(a.take(k)[0] == a[0] && b.take(k)[0] == b[0]);
                    }
                }
            }
        } else {
            lemma_bytes_differ(x, y);
            if bytes_before(x, y) {
                let k = choose|k: int| first_difference(x, y, k);
                assert forall|i: int| 0 <= i < k + 1 implies #[trigger] a[i]
                    == b[i] by {
                    if i > 0 {
                        assert(x.take(k)[i - 1] == y.take(k)[i - 1]);
                    }
                }
                assert(a.take(k + 1) =~= b.take(k + 1));
                assert(first_difference(a, b, k + 1));
            }
            if exists|k: int| first_difference(a, b, k) {
                let k = choose|k: int| first_difference(a, b, k);
                assert forall|i: int| 0 <= i < k - 1 implies #[trigger] x[i]
                    == y[i] by {
                    assert(a.take(k)[i + 1] == b.take(k)[i + 1]);
                }
                assert(x.take(k - 1) =~= y.take(k - 1));
                assert(first_difference(x, y, k - 1));
            }
        }
    }
}

/// `entries[i]` is the last entry of its name.
pub open spec fn last_of_name(entries: Seq<CycleEntry>, i: int) -> bool {
    &&& 0 <= i < entries.len()
    &&& forall|j: int| i < j < entries.len() ==> #[trigger] entries[j].name@ != entries[i].name@
}

/// What entries say of a name is what the last entry of that name says, and they
/// say nothing of a name that none of them has.
pub proof fn law_last_entry_counts(entries: Seq<CycleEntry>, name: Seq<char>)
    ensures
        cycles_by_name(entries).contains_key(name) <==> exists|i: int|
            0 <= i < entries.len() && #[trigger] entries[i].name@ == name,
        forall|i: int| #[trigger]
            last_of_name(entries, i) && entries[i].name@ == name ==> cycles_by_name(
                entries,
            ).contains_pair(name, entries[i].cycles),
    decreases entries.len(),
{
    if entries.len() > 0 {
        let init = entries.drop_last();
        let last = entries.len() - 1;
        law_last_entry_counts(init, name);
        if entries[last].name@ != name {
            if cycles_by_name(init).contains_key(name) {
                let i = choose|i: int| 0 <= i < init.len() && #[trigger] init[i].name@ == name;
                assert(entries[i].name@ == name);
            }
            assert forall|i: int| #[trigger]
                last_of_name(entries, i) && entries[i].name@ == name implies cycles_by_name(
                entries,
            ).contains_pair(name, entries[i].cycles) by {
                assert(init[i] == entries[i]);
                assert forall|j: int| i < j < init.len() implies #[trigger] init[j].name@
                    != init[i].name@ by {
                    assert(entries[j].name@ != entries[i].name@);
                }
                assert(last_of_name(init, i));
            }
            assert forall|i: int| 0 <= i < entries.len() && #[trigger] entries[i].name@
                == name implies cycles_by_name(entries).contains_key(name) by {
                assert(init[i].name@ == name);
            }
        } else {
            assert forall|i: int| #[trigger]
                last_of_name(entries, i) && entries[i].name@ == name implies i == last by {
                if i < last {
                    assert(entries[last].name@ != entries[i].name@);
                }
            }
        }
    }
}

/// Ordered entries that say what others say hold each of their names once, in
/// the order of names, with the cycles of the last entry of that name.
pub proof fn law_ordered_entries_hold_all(given: Seq<CycleEntry>, ordered: Seq<CycleEntry>, i: int)
    requires
        in_name_order(ordered),
        cycles_by_name(ordered) == cycles_by_name(given),
        last_of_name(given, i),
    ensures
        exists|k: int| 0 <= k < ordered.len() && #[trigger] ordered[k]@ == given[i]@,
        forall|j: int, k: int|
            0 <= j < k < ordered.len() ==> name_before(
                #[trigger] ordered[j].name@,
                #[trigger] ordered[k].name@,
            ),
        forall|k: int|
            0 <= k < ordered.len() ==> exists|j: int|
                0 <= j < given.len() && #[trigger] given[j].name@ == (
                #[trigger] ordered[k]).name@,
{
    let name = given[i].name@;
    law_last_entry_counts(given, name);
    lemma_ordered_is_distinct(ordered);
    lemma_distinct_entries(ordered);
    assert(cycles_by_name(ordered).contains_key(name));
    let k = choose|k: int| 0 <= k < ordered.len() && #[trigger] ordered[k].name@ == name;
    assert(cycles_by_name(ordered).contains_pair(ordered[k].name@, ordered[k].cycles));
    assert(ordered[k]@ == given[i]@);
    assert forall|k: int| 0 <= k < ordered.len() implies exists|j: int|
        0 <= j < given.len() && #[trigger] given[j].name@ == (#[trigger] ordered[k]).name@ by {
        law_last_entry_counts(given, ordered[k].name@);
        assert(cycles_by_name(ordered).contains_pair(ordered[k].name@, ordered[k].cycles));
    }
}

} // verus!
