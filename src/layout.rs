//! Wire layout rules shared by the generators: vtable offsets of fields and the
//! discriminants of enum variants.
use vstd::prelude::*;
use crate::ir::EnumVal;

verus! {

/// The vtable offset of the field in slot `index`: two header words precede the
/// field slots, each slot two bytes wide.
pub open spec fn field_offset_spec(index: int) -> int {
    4 + 2 * index
}

/// The largest slot index whose offset still fits in a 16-bit vtable entry.
pub const MAX_FIELD_INDEX: u16 = 32765;

/// The most fields a table can have.
pub const MAX_FIELDS: usize = 32766;

/// The vtable offset of the field in slot `index`.
pub fn field_offset(index: u16) -> (r: u16)
    requires
        index <= MAX_FIELD_INDEX,
    ensures
        r == field_offset_spec(index as int),
{
    4 + 2 * index
}

/// The discriminant of variant `i`: its explicit constant, or else its position.
pub open spec fn discriminant_spec(values: Seq<EnumVal>, i: int) -> int {
    match values[i].value {
        Some(c) => c as int,
        None => i,
    }
}

/// The discriminant of every variant, in declaration order.
pub fn discriminants(values: &Vec<EnumVal>) -> (r: Vec<i64>)
    requires
        values@.len() <= i64::MAX,
    ensures
        r@.len() == values@.len(),
        forall|i: int| 0 <= i < values@.len() ==> r@[i] as int == discriminant_spec(values@, i),
{
    let mut r: Vec<i64> = Vec::new();
    let mut i: usize = 0;
    while i < values.len()
        invariant
            i <= values@.len(),
            values@.len() <= i64::MAX,
            r@.len() == i,
            forall|j: int| 0 <= j < i ==> r@[j] as int == discriminant_spec(values@, j),
        decreases values@.len() - i,
    {
        let d: i64 = match values[i].value {
            Some(c) => c,
            None => i as i64,
        };
        r.push(d);
        i = i + 1;
    }
    r
}

} // verus!
