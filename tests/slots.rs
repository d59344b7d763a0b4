use butte_build::ast::{Comment, DefaultValue, Scalar};
use butte_build::ir::{Field, Ident, Table, Type};
use butte_build::layout::field_offset;
use butte_build::wire::{MissingField, SlotTable};

fn table() -> Table {
    let no_doc = || Comment { lines: vec![] };
    Table {
        ident: Ident::new("Monster"),
        fields: vec![
            Field { ident: Ident::new("hp"), ty: Type::Short, default_value: Some(DefaultValue::Scalar(Scalar::Integer(100))), doc: no_doc() },
            Field { ident: Ident::new("name"), ty: Type::String, default_value: None, doc: no_doc() },
            Field { ident: Ident::new("mana"), ty: Type::UInt8, default_value: None, doc: no_doc() },
        ],
        doc: no_doc(),
    }
}

#[test]
fn omitted_required_field_is_named() {
    let t = table();
    let mut s = SlotTable::new();
    s.push_slot_always(field_offset(1), 40);
    let err = s.finish(&t).unwrap_err();
    assert_eq!(err, MissingField { table: "Monster".to_string(), field: "mana".to_string(), index: 2 });
}

#[test]
fn first_omitted_field_is_named() {
    let t = table();
    let s = SlotTable::new();
    let err = s.finish(&t).unwrap_err();
    assert_eq!(err.field, "name");
    assert_eq!(err.index, 1);
}

#[test]
fn all_required_fields_supplied() {
    let t = table();
    let mut s = SlotTable::new();
    s.push_slot_always(field_offset(1), 40);
    s.push_slot_always(field_offset(2), 7);
    assert_eq!(s.finish(&t), Ok(()));
}

#[test]
fn default_value_is_not_stored() {
    let mut s = SlotTable::new();
    s.push_slot(field_offset(0), 100, 100);
    assert_eq!(s.get(field_offset(0)), None);
    assert_eq!(s.get_or(field_offset(0), 100), 100);
    assert!(s.entries.is_empty());
    s.push_slot(field_offset(0), 90, 100);
    assert_eq!(s.get(field_offset(0)), Some(90));
    assert_eq!(s.get_or(field_offset(0), 100), 90);
}

#[test]
fn last_write_wins() {
    let mut s = SlotTable::new();
    s.push_slot_always(4, 1);
    s.push_slot_always(6, 2);
    s.push_slot_always(4, 3);
    assert_eq!(s.get(4), Some(3));
    assert_eq!(s.get(6), Some(2));
    assert_eq!(s.get(8), None);
}

#[test]
fn union_round_trip() {
    let (tag_off, value_off) = (field_offset(0), field_offset(1));
    let mut s = SlotTable::new();
    s.write_union(tag_off, 1, value_off, 77);
    assert_eq!(s.read_union(tag_off, value_off), Some((1, 77)));

    let empty = SlotTable::new();
    assert_eq!(empty.read_union(tag_off, value_off), None);
    assert_eq!(empty.get_or(tag_off, 0), 0);

    let mut none = SlotTable::new();
    none.write_union(tag_off, 0, value_off, 5);
    assert_eq!(none.read_union(tag_off, value_off), None);
    assert_eq!(none.get(tag_off), None);
}
