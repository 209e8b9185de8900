use sysrepo::{rpc_output, EngineCall, SrData, SrError, SrType, SrVal, SrValue, SrValueSlice};

fn leaf(path: &str, v: i64) -> SrVal {
    SrVal { xpath: path.to_string(), type_: SrType::Int64, dflt: false, data: SrData::Int(v) }
}

#[test]
fn owned_slice_released_in_one_bulk_call() {
    let s = SrValueSlice::from(0x100, vec![leaf("/m:a", 1), leaf("/m:b", 2), leaf("/m:c", 3)], true);
    assert_eq!(s.release(), vec![EngineCall::FreeValues(0x100, 3)]);
}

#[test]
fn borrowed_slice_releases_nothing() {
    let s = SrValueSlice::from(0x100, vec![leaf("/m:a", 1), leaf("/m:b", 2)], false);
    assert_eq!(s.release(), Vec::<EngineCall>::new());
}

#[test]
fn set_owned_makes_release_bulk() {
    let mut s = SrValueSlice::from(0x200, vec![leaf("/m:a", 1)], false);
    s.set_owned();
    assert_eq!(s.release(), vec![EngineCall::FreeValues(0x200, 1)]);
}

#[test]
fn empty_owned_slice_still_released() {
    let s = SrValueSlice::new(0x300, 0, true);
    assert_eq!(s.len(), 0);
    assert_eq!(s.release(), vec![EngineCall::FreeValues(0x300, 0)]);
}

#[test]
fn new_slice_has_unset_slots_and_fixed_length() {
    let mut s = SrValueSlice::new(0x400, 3, false);
    assert_eq!(s.len(), 3);
    assert_eq!(s.as_ptr(), 0x400);
    for v in s.as_slice() {
        assert_eq!(v.type_, SrType::Unknown);
        assert!(v.xpath.is_empty());
    }
    s.set_int64_value(1, true, "/mod:count", -42);
    assert_eq!(s.len(), 3);
    let v = &s.as_slice()[1];
    assert_eq!(v.xpath, "/mod:count");
    assert_eq!(v.type_, SrType::Int64);
    assert!(v.dflt);
    assert!(matches!(v.data, SrData::Int(-42)));
    assert_eq!(s.as_slice()[0].type_, SrType::Unknown);
}

#[test]
fn at_mut_writes_one_entry() {
    let mut s = SrValueSlice::from(0x10, vec![leaf("/m:a", 1), leaf("/m:b", 2)], false);
    s.at_mut(0).data = SrData::Text("x".to_string());
    assert!(matches!(&s.as_slice()[0].data, SrData::Text(t) if t == "x"));
    assert!(matches!(s.as_slice()[1].data, SrData::Int(2)));
}

#[test]
fn value_release_frees_only_present_values() {
    assert_eq!(SrValue::from(0x55).release(), vec![EngineCall::FreeVal(0x55)]);
    assert_eq!(SrValue::from(0).release(), Vec::<EngineCall>::new());
    assert_eq!(SrValue::from(7).value(), 7);
    assert!(!SrValue::from(0).is_present());
}

#[test]
fn rpc_output_hands_array_to_engine() {
    let out = SrValueSlice::from(0x900, vec![leaf("/m:rpc/out", 9), leaf("/m:rpc/out2", 10)], true);
    assert_eq!(rpc_output(Ok(out)), (0x900, 2, 0));
    assert_eq!(rpc_output(Err(SrError::CallbackShelve)), (0, 0, 15));
    assert_eq!(rpc_output(Err(SrError::CallbackFailed)), (0, 0, 14));
}
