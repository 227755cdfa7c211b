//! The composite indexing table: the fixed static table (indices 1..=61)
//! logically concatenated with a FIFO dynamic table (the most recently
//! inserted entry at index 62).
//!
//! The dynamic table is modelled by a sequence of `(name, value)` entries,
//! newest first.  `evict_to` and the `dyn_find_*` functions specify eviction
//! and lookup; `index_outcome` and `table_after` specify the per-header
//! indexing policy and its side effect on the table.

use vstd::prelude::*;

use crate::header::{ascii_bytes, bytes_eq, header_ok, name_is, Header, HeaderView};
use crate::static_table::{lookup_full, lookup_name, static_find_full, static_find_name};
use crate::wire::MAX_PREFIX_INT;

verus! {

/// A dynamic-table entry; immutable once inserted, destroyed only by
/// eviction.
pub struct Entry {
    pub name: Vec<u8>,
    pub value: Vec<u8>,
}

/// What an entry holds: its name and value bytes.
pub struct EntryView {
    pub name: Seq<u8>,
    pub value: Seq<u8>,
}

impl View for Entry {
    type V = EntryView;

    open spec fn view(&self) -> EntryView {
        EntryView { name: self.name@, value: self.value@ }
    }
}

/// The size an entry accounts for: name length + value length + 32 octets
/// (RFC 7541 section 4.1).
pub open spec fn entry_size(e: EntryView) -> int {
    e.name.len() as int + e.value.len() as int + 32
}

/// The total size of a sequence of dynamic entries.
pub open spec fn dyn_size(es: Seq<EntryView>) -> int
    decreases es.len(),
{
    if es.len() == 0 {
        0
    } else {
        dyn_size(es.drop_last()) + entry_size(es.last())
    }
}

/// The entries left after evicting oldest-first until the total size is at
/// most `max`.
pub open spec fn evict_to(es: Seq<EntryView>, max: int) -> Seq<EntryView>
    decreases es.len(),
{
    if es.len() == 0 || dyn_size(es) <= max {
        es
    } else {
        evict_to(es.drop_last(), max)
    }
}

/// First (most recent) dynamic position at or after `i` whose entry matches
/// `(n, v)` exactly.
pub open spec fn dyn_find_full_from(es: Seq<EntryView>, n: Seq<u8>, v: Seq<u8>, i: int) -> Option<
    int,
>
    decreases es.len() - i,
{
    if i < 0 || i >= es.len() {
        None
    } else if es[i].name == n && es[i].value == v {
        Some(i)
    } else {
        dyn_find_full_from(es, n, v, i + 1)
    }
}

/// First (most recent) dynamic position at or after `i` whose entry has name
/// `n`.
pub open spec fn dyn_find_name_from(es: Seq<EntryView>, n: Seq<u8>, i: int) -> Option<int>
    decreases es.len() - i,
{
    if i < 0 || i >= es.len() {
        None
    } else if es[i].name == n {
        Some(i)
    } else {
        dyn_find_name_from(es, n, i + 1)
    }
}

/// The logical table state: dynamic entries (newest first) and the current
/// maximum size.
pub struct TableView {
    pub entries: Seq<EntryView>,
    pub max_size: int,
}

/// The smallest composite index whose entry matches `(n, v)` exactly:
/// static indices are canonical, dynamic positions start at 62.
pub open spec fn find_full(t: TableView, n: Seq<u8>, v: Seq<u8>) -> Option<int> {
    match static_find_full(n, v) {
        Some(i) => Some(i as int),
        None => match dyn_find_full_from(t.entries, n, v, 0) {
            Some(p) => Some(62 + p),
            None => None,
        },
    }
}

/// The smallest composite index whose entry has name `n`.
pub open spec fn find_name(t: TableView, n: Seq<u8>) -> Option<int> {
    match static_find_name(n) {
        Some(i) => Some(i as int),
        None => match dyn_find_name_from(t.entries, n, 0) {
            Some(p) => Some(62 + p),
            None => None,
        },
    }
}

/// Length under which a `cookie` value counts as short and high-entropy, and
/// is therefore kept out of the dynamic table.
pub const SHORT_COOKIE_LEN: usize = 20;

/// Header names whose values are never inserted into the dynamic table:
/// they are emitted as name references with literal, non-indexed values.
pub open spec fn never_index(n: Seq<u8>, v: Seq<u8>) -> bool {
    n == ascii_bytes("content-length"@) || n == ascii_bytes("date"@) || n == ascii_bytes(
        "authorization"@,
    ) || n == ascii_bytes("set-cookie"@) || (n == ascii_bytes("cookie"@) && v.len()
        < SHORT_COOKIE_LEN)
}

/// Whether an entry for `(n, v)` is worth holding in a table of maximum
/// size `max`: an entry above three quarters of the maximum is served as a
/// literal instead, since inserting it would evict most of the table for a
/// single possible reuse.
pub open spec fn fits(n: Seq<u8>, v: Seq<u8>, max: int) -> bool {
    4 * (32 + n.len() + v.len()) <= 3 * max
}

/// The tagged outcome of indexing one header.
#[derive(Clone, Copy, Debug, PartialEq, Eq, Structural)]
pub enum Index {
    /// A full `(name, value)` match at the given composite index.
    Indexed(usize),
    /// The entry was inserted; its name was found at the given pre-insertion
    /// composite index.
    InsertedValue(usize),
    /// The entry was inserted; neither name nor value was in the table.
    Inserted,
    /// A name-only reference (the flag marks a sensitive value); nothing
    /// inserted.
    Name(usize, bool),
    /// A full literal (the flag marks a sensitive value); nothing inserted.
    NotIndexed(bool),
}

/// The indexing-policy decision for header `h` against table state `t`
/// (RFC 7541 representations; sensitive and never-indexed names first, then
/// full match, then insertion when the entry fits).
pub open spec fn index_outcome(t: TableView, h: HeaderView) -> Index {
    if h.sensitive {
        match find_name(t, h.name) {
            Some(i) => Index::Name(i as usize, true),
            None => Index::NotIndexed(true),
        }
    } else if never_index(h.name, h.value) {
        match find_name(t, h.name) {
            Some(i) => Index::Name(i as usize, false),
            None => Index::NotIndexed(false),
        }
    } else {
        match find_full(t, h.name, h.value) {
            Some(i) => Index::Indexed(i as usize),
            None => if fits(h.name, h.value, t.max_size) {
                match find_name(t, h.name) {
                    Some(i) => Index::InsertedValue(i as usize),
                    None => Index::Inserted,
                }
            } else {
                match find_name(t, h.name) {
                    Some(i) => Index::Name(i as usize, false),
                    None => Index::NotIndexed(false),
                }
            },
        }
    }
}

/// Whether indexing `h` inserts an entry into the dynamic table.
pub open spec fn inserts(t: TableView, h: HeaderView) -> bool {
    &&& !h.sensitive
    &&& !never_index(h.name, h.value)
    &&& find_full(t, h.name, h.value) is None
    &&& fits(h.name, h.value, t.max_size)
}

/// The table state after indexing `h`: unchanged, unless an entry was
/// inserted, which first evicts oldest entries until the new entry fits.
pub open spec fn table_after(t: TableView, h: HeaderView) -> TableView {
    if inserts(t, h) {
        TableView {
            entries: seq![EntryView { name: h.name, value: h.value }] + evict_to(
                t.entries,
                t.max_size - (32 + h.name.len() + h.value.len()),
            ),
            max_size: t.max_size,
        }
    } else {
        t
    }
}

/// Size accounting and range bounds that hold of the table after every
/// public operation.
pub open spec fn size_ok(t: TableView) -> bool {
    dyn_size(t.entries) <= t.max_size && t.max_size <= MAX_PREFIX_INT
}

pub proof fn lemma_dyn_size_len(es: Seq<EntryView>)
    ensures
        dyn_size(es) >= 32 * es.len(),
    decreases es.len(),
{
    if es.len() > 0 {
        lemma_dyn_size_len(es.drop_last());
    }
}

pub proof fn lemma_evict_to_le(es: Seq<EntryView>, max: int)
    requires
        max >= 0,
    ensures
        dyn_size(evict_to(es, max)) <= max,
    decreases es.len(),
{
    if es.len() == 0 || dyn_size(es) <= max {
    } else {
        lemma_evict_to_le(es.drop_last(), max);
    }
}

pub proof fn lemma_dyn_find_name_range(es: Seq<EntryView>, n: Seq<u8>, i: int)
    ensures
        dyn_find_name_from(es, n, i) matches Some(p) ==> i <= p < es.len() && es[p].name == n,
    decreases es.len() - i,
{
    if 0 <= i < es.len() {
        lemma_dyn_find_name_range(es, n, i + 1);
    }
}

pub proof fn lemma_dyn_find_full_range(es: Seq<EntryView>, n: Seq<u8>, v: Seq<u8>, i: int)
    ensures
        dyn_find_full_from(es, n, v, i) matches Some(p) ==> i <= p < es.len() && es[p].name == n
            && es[p].value == v,
    decreases es.len() - i,
{
    if 0 <= i < es.len() {
        lemma_dyn_find_full_range(es, n, v, i + 1);
    }
}

/// The composite table.  The static half is fixed; this structure holds the
/// dynamic half (newest first) together with its cached total size and the
/// current maximum size.
pub struct Table {
    entries: Vec<Entry>,
    size: usize,
    max_size: usize,
}

impl View for Table {
    type V = TableView;

    closed spec fn view(&self) -> TableView {
        TableView {
            entries: self.entries@.map_values(|e: Entry| e@),
            max_size: self.max_size as int,
        }
    }
}

impl Table {
    /// The cached size field agrees with the entries, and everything stays
    /// in the codec's integer range.
    pub closed spec fn size_sync(&self) -> bool {
        self.size as int == dyn_size(self@.entries) && self.max_size <= MAX_PREFIX_INT
    }

    /// Internal consistency: cached size in sync and within the maximum.
    pub open spec fn wf(&self) -> bool {
        self.size_sync() && size_ok(self@)
    }

    /// Creates a table with the given maximum size.  `capacity` is an
    /// allocation hint only; it has no observable effect.
    pub fn new(max_size: usize, capacity: usize) -> (t: Table)
        requires
            max_size <= MAX_PREFIX_INT,
        ensures
            t.wf(),
            t@.entries == Seq::<EntryView>::empty(),
            t@.max_size == max_size as int,
    {
        let t = Table { entries: Vec::with_capacity(capacity), size: 0, max_size };
        proof {
            assert(t@.entries =~= Seq::<EntryView>::empty());
        }
        t
    }

    /// Number of dynamic entries.
    pub fn len(&self) -> (r: usize)
        ensures
            r == self@.entries.len(),
    {
        self.entries.len()
    }

    /// Current total size of the dynamic entries.
    pub fn size(&self) -> (r: usize)
        requires
            self.size_sync(),
        ensures
            r == dyn_size(self@.entries),
    {
        self.size
    }

    /// Current maximum size.
    pub fn max_size(&self) -> (r: usize)
        ensures
            r == self@.max_size,
    {
        self.max_size
    }

    /// Evicts oldest entries until the total size is at most `limit`.
    fn evict_to_limit(&mut self, limit: usize)
        requires
            old(self).size_sync(),
        ensures
            final(self).size_sync(),
            final(self)@.entries == evict_to(old(self)@.entries, limit as int),
            final(self)@.max_size == old(self)@.max_size,
    {
        while self.size > limit
            invariant
                self.size_sync(),
                self.max_size == old(self).max_size,
                evict_to(old(self)@.entries, limit as int) == evict_to(
                    self@.entries,
                    limit as int,
                ),
            decreases self.entries.len(),
        {
            let ghost pre = self@.entries;
            proof {
                lemma_dyn_size_len(pre);
                assert(pre.len() > 0);
                lemma_dyn_size_len(pre.drop_last());
            }
            let e = self.entries.pop().unwrap();
            proof {
                assert(self@.entries =~= pre.drop_last());
                assert(e@ == pre.last());
            }
            let es = e.name.len() + e.value.len() + 32;
            self.size = self.size - es;
        }
        assert(evict_to(self@.entries, limit as int) == self@.entries);
    }

    /// Sets the maximum size and evicts oldest entries until the table
    /// fits; a maximum of zero clears the dynamic table.
    pub fn resize(&mut self, new_max: usize)
        requires
            old(self).wf(),
            new_max <= MAX_PREFIX_INT,
        ensures
            final(self).wf(),
            final(self)@.entries == evict_to(old(self)@.entries, new_max as int),
            final(self)@.max_size == new_max as int,
    {
        self.max_size = new_max;
        self.evict_to_limit(new_max);
        proof {
            lemma_evict_to_le(old(self)@.entries, new_max as int);
        }
    }

    /// Evicts until the new entry fits, then prepends it as index 62.
    fn insert_entry(&mut self, name: Vec<u8>, value: Vec<u8>)
        requires
            old(self).wf(),
            32 + name@.len() + value@.len() <= old(self)@.max_size,
        ensures
            final(self).wf(),
            final(self)@.max_size == old(self)@.max_size,
            final(self)@.entries == seq![EntryView { name: name@, value: value@ }] + evict_to(
                old(self)@.entries,
                old(self)@.max_size - (32 + name@.len() + value@.len()),
            ),
    {
        let s = name.len() + value.len() + 32;
        let limit = self.max_size - s;
        self.evict_to_limit(limit);
        proof {
            lemma_evict_to_le(old(self)@.entries, limit as int);
        }
        let ghost evicted = self@.entries;
        self.entries.insert(0, Entry { name, value });
        self.size = self.size + s;
        proof {
            assert(self@.entries =~= seq![self.entries@[0]@] + evicted);
            assert(dyn_size(self@.entries) == dyn_size(evicted) + 32 + self.entries@[0]@.name.len()
                + self.entries@[0]@.value.len()) by {
                lemma_dyn_size_prepend(evicted, self@.entries[0]);
            }
        }
    }

    /// First dynamic position whose entry has name `n`, newest first.
    fn dyn_lookup_name(&self, n: &Vec<u8>) -> (r: Option<usize>)
        ensures
            match dyn_find_name_from(self@.entries, n@, 0) {
                Some(p) => r == Some(p as usize),
                None => r is None,
            },
    {
        let mut i: usize = 0;
        while i < self.entries.len()
            invariant
                i <= self@.entries.len(),
                dyn_find_name_from(self@.entries, n@, 0) == dyn_find_name_from(
                    self@.entries,
                    n@,
                    i as int,
                ),
            decreases self@.entries.len() - i,
        {
            if bytes_eq(&self.entries[i].name, n) {
                return Some(i);
            }
            i = i + 1;
        }
        None
    }

    /// First dynamic position whose entry matches `(n, v)`, newest first.
    fn dyn_lookup_full(&self, n: &Vec<u8>, v: &Vec<u8>) -> (r: Option<usize>)
        ensures
            match dyn_find_full_from(self@.entries, n@, v@, 0) {
                Some(p) => r == Some(p as usize),
                None => r is None,
            },
    {
        let mut i: usize = 0;
        while i < self.entries.len()
            invariant
                i <= self@.entries.len(),
                dyn_find_full_from(self@.entries, n@, v@, 0) == dyn_find_full_from(
                    self@.entries,
                    n@,
                    v@,
                    i as int,
                ),
            decreases self@.entries.len() - i,
        {
            if bytes_eq(&self.entries[i].name, n) && bytes_eq(&self.entries[i].value, v) {
                return Some(i);
            }
            i = i + 1;
        }
        None
    }

    /// Smallest composite index with name `n`, static entries first.
    fn lookup_name_composite(&self, n: &Vec<u8>) -> (r: Option<usize>)
        requires
            self.wf(),
        ensures
            match find_name(self@, n@) {
                Some(i) => r == Some(i as usize),
                None => r is None,
            },
    {
        match lookup_name(n) {
            Some(i) => Some(i),
            None => {
                proof {
                    lemma_dyn_size_len(self@.entries);
                }
                match self.dyn_lookup_name(n) {
                    Some(p) => {
                        proof {
                            lemma_dyn_find_name_range(self@.entries, n@, 0);
                        }
                        Some(62 + p)
                    },
                    None => None,
                }
            },
        }
    }

    /// Smallest composite index matching `(n, v)`, static entries first.
    fn lookup_full_composite(&self, n: &Vec<u8>, v: &Vec<u8>) -> (r: Option<usize>)
        requires
            self.wf(),
        ensures
            match find_full(self@, n@, v@) {
                Some(i) => r == Some(i as usize),
                None => r is None,
            },
    {
        match lookup_full(n, v) {
            Some(i) => Some(i),
            None => {
                proof {
                    lemma_dyn_size_len(self@.entries);
                }
                match self.dyn_lookup_full(n, v) {
                    Some(p) => {
                        proof {
                            lemma_dyn_find_full_range(self@.entries, n@, v@, 0);
                        }
                        Some(62 + p)
                    },
                    None => None,
                }
            },
        }
    }

    /// Applies the indexing policy to one header: returns the outcome to
    /// serialize and, when the entry is insertable, inserts it (evicting
    /// oldest entries as needed — possibly the entry that supplied the name
    /// reference; the returned index refers to the pre-insertion state).
    pub fn index(&mut self, header: &Header) -> (r: Index)
        requires
            old(self).wf(),
            header_ok(header@),
        ensures
            final(self).wf(),
            final(self)@ == table_after(old(self)@, header@),
            r == index_outcome(old(self)@, header@),
    {
        let name = header.name_bytes();
        let value = header.value_bytes();
        let name_idx = self.lookup_name_composite(&name);
        if header.is_sensitive() {
            return match name_idx {
                Some(i) => Index::Name(i, true),
                None => Index::NotIndexed(true),
            };
        }
        if is_never_index(&name, &value) {
            return match name_idx {
                Some(i) => Index::Name(i, false),
                None => Index::NotIndexed(false),
            };
        }
        match self.lookup_full_composite(&name, &value) {
            Some(i) => Index::Indexed(i),
            None => {
                let s = name.len() + value.len() + 32;
                if 4 * s <= 3 * self.max_size {
                    let r = match name_idx {
                        Some(i) => Index::InsertedValue(i),
                        None => Index::Inserted,
                    };
                    self.insert_entry(name, value);
                    r
                } else {
                    match name_idx {
                        Some(i) => Index::Name(i, false),
                        None => Index::NotIndexed(false),
                    }
                }
            },
        }
    }
}

pub proof fn lemma_dyn_size_prepend(es: Seq<EntryView>, e: EntryView)
    ensures
        dyn_size(seq![e] + es) == entry_size(e) + dyn_size(es),
    decreases es.len(),
{
    let s = seq![e] + es;
    if es.len() == 0 {
        assert(s =~= seq![e]);
        assert(dyn_size(s) == dyn_size(s.drop_last()) + entry_size(s.last()));
        assert(s.drop_last() =~= Seq::<EntryView>::empty());
    } else {
        assert(s.drop_last() =~= seq![e] + es.drop_last());
        lemma_dyn_size_prepend(es.drop_last(), e);
        assert(s.last() == es.last());
    }
}

/// The never-indexed-by-policy check: `content-length`, `date`,
/// `authorization`, `set-cookie`, and `cookie` with a short value.
fn is_never_index(name: &Vec<u8>, value: &Vec<u8>) -> (r: bool)
    ensures
        r == never_index(name@, value@),
{
    proof {
        reveal_strlit("content-length");
        reveal_strlit("date");
        reveal_strlit("authorization");
        reveal_strlit("set-cookie");
        reveal_strlit("cookie");
    }
    name_is(name, "content-length") || name_is(name, "date") || name_is(name, "authorization")
        || name_is(name, "set-cookie") || (name_is(name, "cookie") && value.len()
        < SHORT_COOKIE_LEN)
}

} // verus!
