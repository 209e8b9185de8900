use sysrepo::{check_rc, timeout_ms, EngineCall, SrConn, SrError, SrSession, SrSubscr};

#[test]
fn subscribe_then_unsubscribe_leaves_no_registration() {
    let mut s = SrSession::from(0x10, true);
    let (r, calls) = s.subscribed(0, 0xA0, 0xB0);
    assert_eq!(r, Ok(0xA0));
    assert!(calls.is_empty());
    let calls = s.remove_subscription(0xA0);
    assert_eq!(calls, vec![EngineCall::Unsubscribe(0xA0), EngineCall::DropHandler(0xB0)]);
    assert_eq!(s.release(), vec![EngineCall::SessionStop(0x10)]);
}

#[test]
fn failed_subscribe_frees_handler_at_once() {
    let mut s = SrSession::from(0x10, true);
    let (r, calls) = s.subscribed(SrError::Locked.code(), 0, 0xB0);
    assert_eq!(r, Err(12));
    assert_eq!(calls, vec![EngineCall::DropHandler(0xB0)]);
    assert_eq!(s.release(), vec![EngineCall::SessionStop(0x10)]);
}

#[test]
fn removing_unknown_subscription_does_nothing() {
    let mut s = SrSession::from(0x10, true);
    s.subscribed(0, 0xA0, 0xB0);
    assert!(s.remove_subscription(0xEE).is_empty());
    assert_eq!(
        s.release(),
        vec![EngineCall::Unsubscribe(0xA0), EngineCall::DropHandler(0xB0), EngineCall::SessionStop(0x10)]
    );
}

#[test]
fn session_release_drains_subscriptions_before_stop() {
    let mut s = SrSession::from(0x10, true);
    s.subscribed(0, 0xA1, 0xB1);
    s.subscribed(0, 0xA2, 0xB2);
    let (id, displaced) = s.insert_subscription(SrSubscr::from(0xA3));
    assert_eq!(id, 0xA3);
    assert!(displaced.is_empty());
    let calls = s.release();
    assert_eq!(
        calls,
        vec![
            EngineCall::Unsubscribe(0xA1),
            EngineCall::DropHandler(0xB1),
            EngineCall::Unsubscribe(0xA2),
            EngineCall::DropHandler(0xB2),
            EngineCall::Unsubscribe(0xA3),
            EngineCall::SessionStop(0x10),
        ]
    );
}

#[test]
fn insert_under_live_handle_joins_handlers() {
    let mut s = SrSession::from(0x10, true);
    s.subscribed(0, 0xA1, 0xB1);
    let (_, calls) = s.insert_subscription(SrSubscr::with_handler(0xA1, 0xB9));
    assert!(calls.is_empty());
    assert_eq!(
        s.release(),
        vec![
            EngineCall::Unsubscribe(0xA1),
            EngineCall::DropHandler(0xB1),
            EngineCall::DropHandler(0xB9),
            EngineCall::SessionStop(0x10),
        ]
    );
}

#[test]
fn borrowed_session_refuses_registrations() {
    let mut s = SrSession::from(0x10, false);
    let (r, calls) = s.subscribed(0, 0xA0, 0xB0);
    assert_eq!(r, Err(SrError::InvalArg.code()));
    assert_eq!(calls, vec![EngineCall::Unsubscribe(0xA0), EngineCall::DropHandler(0xB0)]);
    let (_, calls) = s.insert_subscription(SrSubscr::from(0xA1));
    assert_eq!(calls, vec![EngineCall::Unsubscribe(0xA1)]);
    assert!(!s.has_subscription(0xA0));
    assert!(s.release().is_empty());
}

#[test]
fn subscribe_without_handle_frees_handler() {
    let mut s = SrSession::from(0x10, true);
    let (r, calls) = s.subscribed(0, 0, 0xB0);
    assert_eq!(r, Err(SrError::Internal.code()));
    assert_eq!(calls, vec![EngineCall::DropHandler(0xB0)]);
    let mut unstarted = SrSession::new();
    let (r, calls) = unstarted.subscribed(0, 0xA0, 0);
    assert_eq!(r, Err(SrError::InvalArg.code()));
    assert_eq!(calls, vec![EngineCall::Unsubscribe(0xA0)]);
}

#[test]
fn borrowed_session_never_stops() {
    let s = SrSession::from(0x10, false);
    assert_eq!(s.release(), Vec::<EngineCall>::new());
    let owned = SrSession::from(0x20, true);
    let view = owned.clone();
    assert_eq!(view.get_ctx(), 0x20);
    assert!(view.release().is_empty());
    assert_eq!(owned.release(), vec![EngineCall::SessionStop(0x20)]);
}

#[test]
fn unstarted_session_needs_no_stop() {
    assert!(SrSession::new().release().is_empty());
    assert_eq!(SrSubscr::new().id(), 0);
    assert!(SrSubscr::new().release().is_empty());
}

#[test]
fn connection_close_releases_sessions_then_disconnects() {
    let mut c = SrConn::new(0, 0x1).ok().unwrap();
    let id = c.start_session(0, 0x10).ok().unwrap();
    assert_eq!(id, 0x10);
    assert_eq!(c.start_session(0, 0x10), Err(SrError::Exists.code()));
    c.start_session(0, 0x20).ok().unwrap();
    assert!(c.lookup_session(&0x10).is_some());
    assert!(c.lookup_session(&0x30).is_none());
    let calls = c.disconnect();
    assert_eq!(
        calls,
        vec![EngineCall::SessionStop(0x10), EngineCall::SessionStop(0x20), EngineCall::Disconnect(0x1)]
    );
    assert!(c.disconnect().is_empty());
    assert!(c.lookup_session(&0x10).is_none());
}

#[test]
fn connection_errors_pass_through() {
    assert_eq!(SrConn::new(SrError::Sys.code(), 0).err(), Some(3));
    let mut c = SrConn::new(0, 0x1).ok().unwrap();
    assert_eq!(c.start_session(SrError::NoMemory.code(), 0).err(), Some(4));
    assert!(c.lookup_session(&0).is_none());
}

#[test]
fn remove_session_stops_it() {
    let mut c = SrConn::new(0, 0x1).ok().unwrap();
    c.start_session(0, 0x10).ok().unwrap();
    assert_eq!(c.remove_session(&0x10), vec![EngineCall::SessionStop(0x10)]);
    assert!(c.remove_session(&0x10).is_empty());
    assert!(c.insert_session(0x30, SrSession::from(0x30, true)).is_ok());
    let refused = c.insert_session(0x30, SrSession::from(0x31, true)).err().unwrap();
    assert_eq!(refused.get_ctx(), 0x31);
    assert_eq!(c.disconnect(), vec![EngineCall::SessionStop(0x30), EngineCall::Disconnect(0x1)]);
}

#[test]
fn return_codes_and_timeouts() {
    assert_eq!(check_rc(0), Ok(()));
    assert_eq!(check_rc(13), Err(13));
    assert_eq!(SrError::from_code(13), Some(SrError::TimeOut));
    assert_eq!(SrError::from_code(15), Some(SrError::CallbackShelve));
    assert_eq!(SrError::from_code(14), Some(SrError::CallbackFailed));
    assert_eq!(SrError::from_code(16), None);
    assert_eq!(timeout_ms(None), 0);
    assert_eq!(timeout_ms(Some(1500)), 1500);
    assert_eq!(timeout_ms(Some(1u128 << 40)), u32::MAX);
}

#[test]
fn connection_routes_subscriptions_to_its_sessions() {
    let mut c = SrConn::new(0, 0x1).ok().unwrap();
    c.start_session(0, 0x10).ok().unwrap();
    let (r, calls) = c.subscribed(0x10, 0, 0xA0, 0xB0);
    assert_eq!(r, Ok(0xA0));
    assert!(calls.is_empty());
    let (r, calls) = c.subscribed(0x99, 0, 0xA1, 0xB1);
    assert_eq!(r, Err(SrError::NotFound.code()));
    assert_eq!(calls, vec![EngineCall::Unsubscribe(0xA1), EngineCall::DropHandler(0xB1)]);
    let (r, calls) = c.subscribed(0x99, SrError::Locked.code(), 0, 0xB2);
    assert_eq!(r, Err(12));
    assert_eq!(calls, vec![EngineCall::DropHandler(0xB2)]);
    assert!(c.unsubscribe(0x99, 0xA0).is_empty());
    assert_eq!(c.unsubscribe(0x10, 0xA0), vec![EngineCall::Unsubscribe(0xA0), EngineCall::DropHandler(0xB0)]);
    c.subscribed(0x10, 0, 0xA2, 0xB2);
    assert_eq!(
        c.disconnect(),
        vec![
            EngineCall::Unsubscribe(0xA2),
            EngineCall::DropHandler(0xB2),
            EngineCall::SessionStop(0x10),
            EngineCall::Disconnect(0x1),
        ]
    );
}
