//! General laws of the encoder, stated and proved over the specification
//! functions that the public contracts use: the static-table single-byte
//! form, index stability across re-emits, sensitive isolation, size
//! accounting, and the size-update coalescing invariants.

use vstd::arithmetic::power2::lemma2_to64;
use vstd::prelude::*;

use crate::encoder::{header_bytes, next_pending, pending_ok, table_after_headers, table_after_pending, SizeUpdate};
use crate::header::HeaderView;
use crate::static_table::{lemma_static_self_lookup, static_entry_name, static_entry_value};
use crate::table::{
    dyn_size, entry_size, evict_to, find_full, fits, index_outcome, inserts, lemma_dyn_size_prepend,
    lemma_evict_to_le, never_index, size_ok, table_after, EntryView, Index, TableView,
};

verus! {

/// Static-table hits are single-byte: a non-sensitive header spelling the
/// `(name, value)` pair of static entry `i` — for a name outside the
/// never-indexed set — encodes to exactly `0x80 | i`, whatever the table
/// state, and the table is left unchanged.
pub proof fn lemma_static_hit_single_byte(t: TableView, i: int)
    requires
        1 <= i <= 61,
        !never_index(static_entry_name(i), static_entry_value(i)),
    ensures
        header_bytes(
            t,
            HeaderView {
                name: static_entry_name(i),
                value: static_entry_value(i),
                sensitive: false,
            },
        ) == seq![(0x80 + i) as u8],
        table_after(
            t,
            HeaderView {
                name: static_entry_name(i),
                value: static_entry_value(i),
                sensitive: false,
            },
        ) == t,
{
    lemma_static_self_lookup(i);
    lemma2_to64();
    let h = HeaderView { name: static_entry_name(i), value: static_entry_value(i), sensitive: false };
    assert(index_outcome(t, h) == Index::Indexed(i as usize));
    assert(header_bytes(t, h) =~= seq![(0x80 + i) as u8]);
}

/// Index stability across re-emits: a header that is not yet in the table
/// but can be inserted is first emitted in an inserting form
/// (`InsertedValue` or `Inserted`), and immediately re-encoding the same
/// header yields the single-byte indexed form for index 62.
pub proof fn lemma_index_stability(t: TableView, h: HeaderView)
    requires
        !h.sensitive,
        !never_index(h.name, h.value),
        find_full(t, h.name, h.value) is None,
        fits(h.name, h.value, t.max_size),
    ensures
        index_outcome(t, h) is InsertedValue || index_outcome(t, h) is Inserted,
        index_outcome(table_after(t, h), h) == Index::Indexed(62),
        header_bytes(table_after(t, h), h) == seq![0xbeu8],
{
    lemma2_to64();
    let t2 = table_after(t, h);
    let e = EntryView { name: h.name, value: h.value };
    assert(t2.entries[0] == e);
    assert(find_full(t2, h.name, h.value) == Some(62int));
    assert(header_bytes(t2, h) =~= seq![0xbeu8]);
}

/// Sensitive isolation: a sensitive header never mutates the dynamic table.
pub proof fn lemma_sensitive_isolation(t: TableView, h: HeaderView)
    requires
        h.sensitive,
    ensures
        table_after(t, h) == t,
{
}

/// Sensitive isolation over a batch: a header sequence followed by a
/// sensitive header leaves exactly the table state of the sequence alone.
pub proof fn lemma_sensitive_isolation_seq(t: TableView, hs: Seq<HeaderView>, h: HeaderView)
    requires
        h.sensitive,
    ensures
        table_after_headers(t, hs.push(h)) == table_after_headers(t, hs),
    decreases hs.len(),
{
    if hs.len() == 0 {
        assert(hs.push(h)[0] == h);
        assert(hs.push(h).drop_first() =~= hs);
    } else {
        assert(hs.push(h)[0] == hs[0]);
        assert(hs.push(h).drop_first() =~= hs.drop_first().push(h));
        lemma_sensitive_isolation_seq(table_after(t, hs[0]), hs.drop_first(), h);
    }
}

/// Size accounting: indexing one header keeps the sum of entry sizes within
/// the maximum size.
pub proof fn lemma_size_accounting(t: TableView, h: HeaderView)
    requires
        size_ok(t),
    ensures
        size_ok(table_after(t, h)),
{
    if inserts(t, h) {
        let e = EntryView { name: h.name, value: h.value };
        let room = t.max_size - entry_size(e);
        lemma_evict_to_le(t.entries, room);
        lemma_dyn_size_prepend(evict_to(t.entries, room), e);
    }
}

/// Size accounting over a batch: after any sequence of indexed headers the
/// dynamic table still fits its maximum size.
pub proof fn lemma_size_accounting_seq(t: TableView, hs: Seq<HeaderView>)
    requires
        size_ok(t),
    ensures
        size_ok(table_after_headers(t, hs)),
    decreases hs.len(),
{
    if hs.len() > 0 {
        lemma_size_accounting(t, hs[0]);
        lemma_size_accounting_seq(table_after(t, hs[0]), hs.drop_first());
    }
}

/// Size accounting across resizes: flushing a staged size update also
/// leaves the dynamic table within the (new) maximum size.
pub proof fn lemma_size_accounting_resize(t: TableView, p: Option<SizeUpdate>)
    requires
        size_ok(t),
        pending_ok(p),
    ensures
        size_ok(table_after_pending(t, p)),
{
    match p {
        None => {},
        Some(SizeUpdate::One(v)) => {
            lemma_evict_to_le(t.entries, v as int);
        },
        Some(SizeUpdate::Two(lo, hi)) => {
            lemma_evict_to_le(evict_to(t.entries, lo as int), hi as int);
        },
    }
}

/// Size-update idempotence: staging the table's current maximum size with
/// no update pending stages nothing.
pub proof fn lemma_size_update_idempotent(current_max: usize)
    ensures
        next_pending(None, current_max as int, current_max) is None,
{
}

/// Values staged as `Two(min, max)` keep `min <= max` under every
/// coalescing step.
pub open spec fn pending_ordered(p: Option<SizeUpdate>) -> bool {
    match p {
        Some(SizeUpdate::Two(lo, hi)) => lo <= hi,
        _ => true,
    }
}

/// Size-update coalescing keeps the `Two` form ordered: the minimum the
/// peer must pass through never exceeds the final size.
pub proof fn lemma_pending_ordered(p: Option<SizeUpdate>, current_max: int, val: usize)
    requires
        pending_ordered(p),
    ensures
        pending_ordered(next_pending(p, current_max, val)),
{
}

} // verus!
