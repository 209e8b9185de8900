use sysrepo::{check_rc, EngineCall, SrConn, SrData, SrDatastore, SrSession, SrType, SrVal};

// Walks the library's side of open, start, set, apply and read, with each
// engine outcome written as the engine reports it.
#[test]
fn running_session_set_apply_get() {
    let mut conn = SrConn::new(0, 0x1).ok().unwrap();
    assert_eq!(SrDatastore::Running.code(), 1);
    let sess = conn.start_session(0, 0x10).ok().unwrap();
    assert!(conn.lookup_session(&sess).is_some());
    assert_eq!(check_rc(0), Ok(())); // set_item("/mod:leaf", "5")
    assert_eq!(check_rc(0), Ok(())); // apply_changes
    let read = vec![SrVal {
        xpath: "/mod:leaf".to_string(),
        type_: SrType::String,
        dflt: false,
        data: SrData::Text("5".to_string()),
    }];
    let items = SrSession::items_result(0, 0x500, read).ok().unwrap();
    assert_eq!(items.len(), 1);
    assert_eq!(items.as_slice()[0].xpath, "/mod:leaf");
    assert!(matches!(&items.as_slice()[0].data, SrData::Text(t) if t == "5"));
    assert_eq!(items.release(), vec![EngineCall::FreeValues(0x500, 1)]);
    assert_eq!(conn.disconnect(), vec![EngineCall::SessionStop(0x10), EngineCall::Disconnect(0x1)]);
}
