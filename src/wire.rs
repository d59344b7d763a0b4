//! The slot semantics that generated builders and readers follow: which vtable
//! slots a table holds after a sequence of writes, what a read of a slot gives, the
//! required-field check at finish, and the two-slot encoding of a union field.
use vstd::prelude::*;
use vstd::string::StringExecFns;
use crate::ir::Table;
use crate::layout::{MAX_FIELDS, field_offset, field_offset_spec};

verus! {

/// The value of the slot at `offset`: the last write to it, if any.
pub open spec fn slot_lookup(entries: Seq<(u16, u64)>, offset: u16) -> Option<u64>
    decreases entries.len(),
{
    if entries.len() == 0 {
        None
    } else if entries.last().0 == offset {
        Some(entries.last().1)
    } else {
        slot_lookup(entries.drop_last(), offset)
    }
}

/// The slots written to a table, as (vtable offset, scalar bits or placed offset), in
/// write order.
pub struct SlotTable {
    pub entries: Vec<(u16, u64)>,
}

/// The entries after a defaulted write: nothing is stored when the value equals the default.
pub open spec fn push_slot_spec(entries: Seq<(u16, u64)>, offset: u16, value: u64, default: u64) -> Seq<
    (u16, u64),
> {
    if value == default {
        entries
    } else {
        entries.push((offset, value))
    }
}

/// What a union field reads as: nothing when the tag is unset or the implicit `NONE` (0),
/// else the tag with the payload stored in the value slot.
pub open spec fn read_union_spec(entries: Seq<(u16, u64)>, tag_offset: u16, value_offset: u16) -> Option<
    (u64, u64),
> {
    match slot_lookup(entries, tag_offset) {
        None => None,
        Some(tag) => if tag == 0 {
            None
        } else {
            match slot_lookup(entries, value_offset) {
                Some(v) => Some((tag, v)),
                None => None,
            }
        },
    }
}

/// The first field, in declaration order among the first `n`, that has no default and
/// whose slot was never written.
pub open spec fn first_missing(t: Table, entries: Seq<(u16, u64)>, n: nat) -> Option<int>
    decreases n,
{
    if n == 0 || n > t.fields@.len() {
        None
    } else {
        match first_missing(t, entries, (n - 1) as nat) {
            Some(i) => Some(i),
            None => if t.fields@[n - 1].default_value.is_none() && slot_lookup(
                entries,
                field_offset_spec(n - 1) as u16,
            ).is_none() {
                Some(n - 1)
            } else {
                None
            },
        }
    }
}

/// A required field left unwritten when a table was finished.
#[derive(Debug, Clone, PartialEq)]
pub struct MissingField {
    pub table: String,
    pub field: String,
    pub index: usize,
}

impl SlotTable {
    pub open spec fn lookup(&self, offset: u16) -> Option<u64> {
        slot_lookup(self.entries@, offset)
    }

    /// A table with no slot written.
    pub fn new() -> (r: SlotTable)
        ensures
            r.entries@.len() == 0,
            forall|o: u16| (#[trigger] r.lookup(o)).is_none(),
    {
        SlotTable { entries: Vec::new() }
    }

    /// Writes `value` into the slot at `offset`, whatever it is.
    pub fn push_slot_always(&mut self, offset: u16, value: u64)
        ensures
            final(self).entries@ == old(self).entries@.push((offset, value)),
    {
        self.entries.push((offset, value));
    }

    /// Writes `value` into the slot at `offset` unless it equals `default`.
    pub fn push_slot(&mut self, offset: u16, value: u64, default: u64)
        ensures
            final(self).entries@ == push_slot_spec(old(self).entries@, offset, value, default),
    {
        if value != default {
            self.entries.push((offset, value));
        }
    }

    /// Reads the slot at `offset`: absent when it was never written.
    pub fn get(&self, offset: u16) -> (r: Option<u64>)
        ensures
            r == self.lookup(offset),
    {
        let mut i: usize = self.entries.len();
        proof {
            assert(self.entries@.subrange(0, i as int) =~= self.entries@);
        }
        while i > 0
            invariant
                i <= self.entries@.len(),
                slot_lookup(self.entries@, offset) == slot_lookup(self.entries@.subrange(0, i as int), offset),
            decreases i,
        {
            let e = self.entries[i - 1];
            proof {
                assert(self.entries@.subrange(0, i as int).drop_last() =~= self.entries@.subrange(0, i - 1));
            }
            if e.0 == offset {
                return Some(e.1);
            }
            i = i - 1;
        }
        None
    }

    /// Reads the slot at `offset`, folding absence into `default`.
    pub fn get_or(&self, offset: u16, default: u64) -> (r: u64)
        ensures
            r == match self.lookup(offset) {
                Some(v) => v,
                None => default,
            },
    {
        match self.get(offset) {
            Some(v) => v,
            None => default,
        }
    }

    /// Writes a union field: the payload into its own slot and the tag into the sibling
    /// tag slot, where the tag `NONE` (0) is the default.
    pub fn write_union(&mut self, tag_offset: u16, tag: u64, value_offset: u16, value: u64)
        ensures
            final(self).entries@ == push_slot_spec(
                old(self).entries@.push((value_offset, value)),
                tag_offset,
                tag,
                0,
            ),
    {
        self.push_slot_always(value_offset, value);
        self.push_slot(tag_offset, tag, 0);
    }

    /// Reads a union field, see `read_union_spec`.
    pub fn read_union(&self, tag_offset: u16, value_offset: u16) -> (r: Option<(u64, u64)>)
        ensures
            r == read_union_spec(self.entries@, tag_offset, value_offset),
    {
        match self.get(tag_offset) {
            None => None,
            Some(tag) => if tag == 0 {
                None
            } else {
                match self.get(value_offset) {
                    Some(v) => Some((tag, v)),
                    None => None,
                }
            },
        }
    }

    /// The check at the end of building `t`: every field without a default must have been
    /// written; the first one in declaration order that was not is reported by name.
    pub fn finish(&self, t: &Table) -> (r: Result<(), MissingField>)
        requires
            t.fields@.len() <= MAX_FIELDS,
        ensures
            r is Ok <==> first_missing(*t, self.entries@, t.fields@.len()) is None,
            r matches Err(m) ==> first_missing(*t, self.entries@, t.fields@.len()) == Some(m.index as int)
                && m.field@ == t.fields@[m.index as int].ident.raw@ && m.table@ == t.ident.raw@,
    {
        let mut i: usize = 0;
        while i < t.fields.len()
            invariant
                i <= t.fields@.len() <= MAX_FIELDS,
                first_missing(*t, self.entries@, i as nat) is None,
            decreases t.fields@.len() - i,
        {
            let off = field_offset(i as u16);
            if t.fields[i].default_value.is_none() && self.get(off).is_none() {
                proof {
                    lemma_first_missing_stays(*t, self.entries@, (i + 1) as nat, t.fields@.len());
                }
                return Err(MissingField { table: t.ident.raw.clone(), field: t.fields[i].ident.raw.clone(), index: i });
            }
            i = i + 1;
        }
        Ok(())
    }
}

/// Once a missing field is found among the first `k`, it stays the first among more.
proof fn lemma_first_missing_stays(t: Table, entries: Seq<(u16, u64)>, k: nat, n: nat)
    requires
        k <= n <= t.fields@.len(),
        first_missing(t, entries, k) is Some,
    ensures
        first_missing(t, entries, n) == first_missing(t, entries, k),
    decreases n - k,
{
    if k < n {
        lemma_first_missing_stays(t, entries, k, (n - 1) as nat);
    }
}

/// Finishing fails exactly at the omitted field: when field `i` has no default and was
/// never written, while every other field without a default was, the check names field
/// `i`; when every field without a default was written, the check passes.
pub proof fn lemma_required_field_enforced(t: Table, entries: Seq<(u16, u64)>, i: int)
    requires
        t.fields@.len() <= MAX_FIELDS,
        0 <= i < t.fields@.len(),
        forall|j: int|
            0 <= j < t.fields@.len() && j != i && (#[trigger] t.fields@[j]).default_value.is_none()
                ==> slot_lookup(entries, field_offset_spec(j) as u16) is Some,
    ensures
        t.fields@[i].default_value.is_none() && slot_lookup(entries, field_offset_spec(i) as u16) is None
            ==> first_missing(t, entries, t.fields@.len()) == Some(i),
        !(t.fields@[i].default_value.is_none() && slot_lookup(entries, field_offset_spec(i) as u16) is None)
            ==> first_missing(t, entries, t.fields@.len()) is None,
{
    lemma_first_missing_only(t, entries, i, t.fields@.len());
}

proof fn lemma_first_missing_only(t: Table, entries: Seq<(u16, u64)>, i: int, n: nat)
    requires
        n <= t.fields@.len(),
        0 <= i < t.fields@.len(),
        forall|j: int|
            0 <= j < t.fields@.len() && j != i && (#[trigger] t.fields@[j]).default_value.is_none()
                ==> slot_lookup(entries, field_offset_spec(j) as u16) is Some,
    ensures
        i < n && t.fields@[i].default_value.is_none() && slot_lookup(entries, field_offset_spec(i) as u16) is None
            ==> first_missing(t, entries, n) == Some(i),
        !(i < n && t.fields@[i].default_value.is_none() && slot_lookup(entries, field_offset_spec(i) as u16) is None)
            ==> first_missing(t, entries, n) is None,
    decreases n,
{
    if n > 0 {
        lemma_first_missing_only(t, entries, i, (n - 1) as nat);
        assert(t.fields@[n - 1] == t.fields@[n - 1]);
    }
}

/// Writing a scalar equal to its default stores nothing: the slot still reads as absent,
/// and a read that folds absence into the default gives the default.
pub proof fn lemma_default_elided(entries: Seq<(u16, u64)>, offset: u16, value: u64, default: u64)
    requires
        value == default,
        slot_lookup(entries, offset) is None,
    ensures
        slot_lookup(push_slot_spec(entries, offset, value, default), offset) is None,
        match slot_lookup(push_slot_spec(entries, offset, value, default), offset) {
            Some(v) => v,
            None => default,
        } == default,
{
}

/// A union written with a tag other than `NONE` reads back as that tag and payload; on a
/// table where neither slot was written it reads as nothing, and its tag as `NONE`.
pub proof fn lemma_union_round_trip(
    entries: Seq<(u16, u64)>,
    tag_offset: u16,
    tag: u64,
    value_offset: u16,
    value: u64,
)
    requires
        tag != 0,
        tag_offset != value_offset,
    ensures
        read_union_spec(
            push_slot_spec(entries.push((value_offset, value)), tag_offset, tag, 0),
            tag_offset,
            value_offset,
        ) == Some((tag, value)),
        read_union_spec(Seq::empty(), tag_offset, value_offset) is None,
        slot_lookup(Seq::empty(), tag_offset) is None,
{
    let e1 = entries.push((value_offset, value));
    let e2 = e1.push((tag_offset, tag));
    assert(e2.drop_last() =~= e1);
    assert(e1.drop_last() =~= entries);
    assert(push_slot_spec(e1, tag_offset, tag, 0) == e2);
    assert(slot_lookup(e2, tag_offset) == Some(tag));
    assert(slot_lookup(e1, value_offset) == Some(value));
    assert(slot_lookup(e2, value_offset) == slot_lookup(e1, value_offset));
}

} // verus!
