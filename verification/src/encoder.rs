//! The encoder: owns the composite table and a pending size update, and
//! drives one encode batch at a time.
//!
//! A batch first flushes the pending size update (resizing the local table
//! and emitting the matching wire commands), then serializes each header's
//! indexing outcome in input order.  `block_bytes` is the specification of a
//! whole batch.

use vstd::prelude::*;

use crate::buffer::{append_to_buf, buf_view};
use crate::header::{header_ok, Header, HeaderView};
use crate::static_table::{lemma_static_find_full_range, lemma_static_find_name_range};
use crate::table::{
    evict_to, index_outcome, lemma_dyn_find_full_range, lemma_dyn_find_name_range,
    lemma_dyn_size_len, table_after, EntryView, Index, Table, TableView,
};
use crate::wire::{
    encode_int, encode_size_update, encode_str, int_bytes, prefix_limit, size_update_bytes,
    str_bytes, MAX_PREFIX_INT,
};
use vstd::arithmetic::power2::lemma2_to64;

verus! {

/// The encoder's error taxonomy.  The current design has no recoverable
/// errors — `encode` always returns `Ok` — so no value of this type is ever
/// built; it reserves the result type's right to grow an error taxonomy.
#[derive(Debug)]
pub struct EncoderError {
    _reserved: (),
}

/// A staged dynamic-table-size update, coalesced across calls: either a
/// single target size, or the minimum the peer must pass through together
/// with the final size.
#[derive(Debug, Copy, Clone, Eq, PartialEq, Structural)]
pub enum SizeUpdate {
    One(usize),
    /// Minimum first, then the final size.
    Two(usize, usize),
}

/// The size-update coalescing rule: how a newly requested maximum `val`
/// combines with the pending update, given the table's current maximum.
pub open spec fn next_pending(p: Option<SizeUpdate>, current_max: int, val: usize) -> Option<
    SizeUpdate,
> {
    match p {
        Some(SizeUpdate::One(prev)) => {
            if val > prev {
                if prev as int > current_max {
                    Some(SizeUpdate::One(val))
                } else {
                    Some(SizeUpdate::Two(prev, val))
                }
            } else {
                Some(SizeUpdate::One(val))
            }
        },
        Some(SizeUpdate::Two(lo, _hi)) => {
            if val < lo {
                Some(SizeUpdate::One(val))
            } else {
                Some(SizeUpdate::Two(lo, val))
            }
        },
        None => {
            if val as int == current_max {
                None
            } else {
                Some(SizeUpdate::One(val))
            }
        },
    }
}

/// Staged sizes stay within the integer codec's range.
pub open spec fn pending_ok(p: Option<SizeUpdate>) -> bool {
    match p {
        None => true,
        Some(SizeUpdate::One(v)) => v <= MAX_PREFIX_INT,
        Some(SizeUpdate::Two(lo, hi)) => lo <= MAX_PREFIX_INT && hi <= MAX_PREFIX_INT,
    }
}

/// The size-update commands emitted at the head of the next batch.
pub open spec fn pending_bytes(p: Option<SizeUpdate>) -> Seq<u8> {
    match p {
        None => Seq::empty(),
        Some(SizeUpdate::One(v)) => size_update_bytes(v as int),
        Some(SizeUpdate::Two(lo, hi)) => size_update_bytes(lo as int) + size_update_bytes(
            hi as int,
        ),
    }
}

/// The table state after the pending resizes are applied.
pub open spec fn table_after_pending(t: TableView, p: Option<SizeUpdate>) -> TableView {
    match p {
        None => t,
        Some(SizeUpdate::One(v)) => TableView {
            entries: evict_to(t.entries, v as int),
            max_size: v as int,
        },
        Some(SizeUpdate::Two(lo, hi)) => TableView {
            entries: evict_to(evict_to(t.entries, lo as int), hi as int),
            max_size: hi as int,
        },
    }
}

/// The wire bytes of one header's indexing outcome.
pub open spec fn outcome_bytes(o: Index, h: HeaderView) -> Seq<u8> {
    match o {
        Index::Indexed(i) => int_bytes(i as int, 7, 0x80),
        Index::InsertedValue(i) => int_bytes(i as int, 6, 0x40) + str_bytes(h.value),
        Index::Inserted => seq![0x40u8] + str_bytes(h.name) + str_bytes(h.value),
        Index::Name(i, s) => int_bytes(i as int, 4, if s {
            0x10u8
        } else {
            0x00u8
        }) + str_bytes(h.value),
        Index::NotIndexed(s) => seq![
            if s {
                0x10u8
            } else {
                0x00u8
            },
        ] + str_bytes(h.name) + str_bytes(h.value),
    }
}

/// The wire bytes of one header against table state `t`.
pub open spec fn header_bytes(t: TableView, h: HeaderView) -> Seq<u8> {
    outcome_bytes(index_outcome(t, h), h)
}

/// The wire bytes of a header sequence, the table evolving header by header.
pub open spec fn headers_bytes(t: TableView, hs: Seq<HeaderView>) -> Seq<u8>
    decreases hs.len(),
{
    if hs.len() == 0 {
        Seq::empty()
    } else {
        header_bytes(t, hs[0]) + headers_bytes(table_after(t, hs[0]), hs.drop_first())
    }
}

/// The table state after a whole header sequence.
pub open spec fn table_after_headers(t: TableView, hs: Seq<HeaderView>) -> TableView
    decreases hs.len(),
{
    if hs.len() == 0 {
        t
    } else {
        table_after_headers(table_after(t, hs[0]), hs.drop_first())
    }
}

/// Everything one `encode` call appends: pending size-update commands, then
/// the headers in input order.
pub open spec fn block_bytes(t: TableView, p: Option<SizeUpdate>, hs: Seq<HeaderView>) -> Seq<
    u8,
> {
    pending_bytes(p) + headers_bytes(table_after_pending(t, p), hs)
}

/// The views of a header sequence.
pub open spec fn header_views(hs: Seq<Header>) -> Seq<HeaderView> {
    hs.map_values(|h: Header| h@)
}

/// The HPACK encoder.
pub struct Encoder {
    /// The composite indexing table.
    pub table: Table,
    /// The staged size update, coalesced by `update_max_size`.
    pub size_update: Option<SizeUpdate>,
}

impl Encoder {
    /// Internal consistency of table and staged sizes.
    pub open spec fn wf(&self) -> bool {
        self.table.wf() && pending_ok(self.size_update)
    }

    /// Creates an encoder whose table may grow to `max_size`.  `capacity`
    /// pre-allocates entry storage and has no observable effect.
    pub fn new(max_size: usize, capacity: usize) -> (e: Encoder)
        requires
            max_size <= MAX_PREFIX_INT,
        ensures
            e.wf(),
            e.table@.entries == Seq::<EntryView>::empty(),
            e.table@.max_size == max_size as int,
            e.size_update is None,
    {
        Encoder { table: Table::new(max_size, capacity), size_update: None }
    }

    /// Queues a maximum-size update; the next call to `encode` emits the
    /// matching dynamic-table-size-update command(s) and resizes the table.
    /// Successive calls coalesce so the peer still observes the minimum size
    /// passed through (RFC 7541 section 4.2).
    pub fn update_max_size(&mut self, val: usize)
        requires
            old(self).wf(),
            val <= MAX_PREFIX_INT,
        ensures
            final(self).wf(),
            final(self).table == old(self).table,
            final(self).size_update == next_pending(
                old(self).size_update,
                old(self).table@.max_size,
                val,
            ),
    {
        match self.size_update {
            Some(SizeUpdate::One(prev)) => {
                if val > prev {
                    if prev > self.table.max_size() {
                        self.size_update = Some(SizeUpdate::One(val));
                    } else {
                        self.size_update = Some(SizeUpdate::Two(prev, val));
                    }
                } else {
                    self.size_update = Some(SizeUpdate::One(val));
                }
            },
            Some(SizeUpdate::Two(lo, _hi)) => {
                if val < lo {
                    self.size_update = Some(SizeUpdate::One(val));
                } else {
                    self.size_update = Some(SizeUpdate::Two(lo, val));
                }
            },
            None => {
                if val != self.table.max_size() {
                    // No command needed when the value already matches the
                    // table's maximum size.
                    self.size_update = Some(SizeUpdate::One(val));
                }
            },
        }
    }

    /// Serializes one header: consults the indexing policy (mutating the
    /// table when it inserts) and appends the outcome's wire bytes.
    fn encode_header(&mut self, header: &Header, dst: &mut Vec<u8>) -> (r: Result<
        (),
        EncoderError,
    >)
        requires
            old(self).wf(),
            header_ok(header@),
        ensures
            final(self).wf(),
            final(self).table@ == table_after(old(self).table@, header@),
            final(self).size_update == old(self).size_update,
            final(dst)@ == old(dst)@ + header_bytes(old(self).table@, header@),
            r is Ok,
    {
        proof {
            lemma2_to64();
            assert(prefix_limit(4) == 15 && prefix_limit(5) == 31 && prefix_limit(6) == 63
                && prefix_limit(7) == 127);
            lemma_dyn_size_len(old(self).table@.entries);
            lemma_dyn_find_name_range(old(self).table@.entries, header@.name, 0);
            lemma_dyn_find_full_range(old(self).table@.entries, header@.name, header@.value, 0);
            lemma_static_find_name_range(header@.name);
            lemma_static_find_full_range(header@.name, header@.value);
        }
        match self.table.index(header) {
            Index::Indexed(idx) => {
                assert(!header@.sensitive);
                encode_int(idx, 7, 0x80, dst);
            },
            Index::Name(idx, sensitive) => {
                if sensitive {
                    encode_int(idx, 4, 0x10, dst);
                } else {
                    encode_int(idx, 4, 0, dst);
                }
                let value = header.value_bytes();
                encode_str(&value, dst);
            },
            Index::Inserted => {
                assert(!header@.sensitive);
                dst.push(0x40);
                let name = header.name_bytes();
                encode_str(&name, dst);
                let value = header.value_bytes();
                encode_str(&value, dst);
            },
            Index::InsertedValue(idx) => {
                assert(!header@.sensitive);
                encode_int(idx, 6, 0x40, dst);
                let value = header.value_bytes();
                encode_str(&value, dst);
            },
            Index::NotIndexed(sensitive) => {
                if sensitive {
                    dst.push(0x10);
                } else {
                    dst.push(0);
                }
                let name = header.name_bytes();
                encode_str(&name, dst);
                let value = header.value_bytes();
                encode_str(&value, dst);
            },
        }
        assert(dst@ =~= old(dst)@ + header_bytes(old(self).table@, header@));
        Ok(())
    }

    /// Encodes one batch: flushes the pending size update (resizing the
    /// table and emitting its commands), then each header in input order.
    /// The serialized block is appended to `dst`.
    pub fn encode(&mut self, headers: Vec<Header>, dst: &mut bytes::BytesMut) -> (r: Result<
        (),
        EncoderError,
    >)
        requires
            old(self).wf(),
            forall|i: int| 0 <= i < headers@.len() ==> header_ok(#[trigger] headers@[i]@),
        ensures
            final(self).wf(),
            buf_view(*final(dst)) == buf_view(*old(dst)) + block_bytes(
                old(self).table@,
                old(self).size_update,
                header_views(headers@),
            ),
            final(self).table@ == table_after_headers(
                table_after_pending(old(self).table@, old(self).size_update),
                header_views(headers@),
            ),
            final(self).size_update is None,
            r is Ok,
    {
        let mut out: Vec<u8> = Vec::new();
        match self.size_update {
            Some(SizeUpdate::One(v)) => {
                self.table.resize(v);
                encode_size_update(v, &mut out);
            },
            Some(SizeUpdate::Two(lo, hi)) => {
                self.table.resize(lo);
                self.table.resize(hi);
                encode_size_update(lo, &mut out);
                encode_size_update(hi, &mut out);
            },
            None => {},
        }
        self.size_update = None;
        assert(out@ =~= pending_bytes(old(self).size_update));
        assert(self.table@ == table_after_pending(old(self).table@, old(self).size_update));
        let ghost vs = header_views(headers@);
        proof {
            assert(vs.skip(0) =~= vs);
        }
        let mut i: usize = 0;
        while i < headers.len()
            invariant
                i <= headers@.len(),
                self.wf(),
                self.size_update is None,
                block_bytes(old(self).table@, old(self).size_update, vs) == out@ + headers_bytes(
                    self.table@,
                    vs.skip(i as int),
                ),
                table_after_headers(
                    table_after_pending(old(self).table@, old(self).size_update),
                    vs,
                ) == table_after_headers(self.table@, vs.skip(i as int)),
            decreases headers@.len() - i,
        {
            proof {
                assert(vs.skip(i as int)[0] == headers@[i as int]@);
                assert(vs.skip(i as int).drop_first() =~= vs.skip(i as int + 1));
            }
            let _ = self.encode_header(&headers[i], &mut out);
            i = i + 1;
        }
        proof {
            assert(vs.skip(headers@.len() as int) =~= Seq::<HeaderView>::empty());
        }
        append_to_buf(dst, &out);
        Ok(())
    }
}

impl Default for Encoder {
    /// The default encoder: a 4096-octet table, no pre-allocation.
    fn default() -> (e: Encoder)
        ensures
            e.wf(),
            e.table@.entries == Seq::<EntryView>::empty(),
            e.table@.max_size == 4096,
            e.size_update is None,
    {
        Encoder::new(4096, 0)
    }
}

} // verus!
