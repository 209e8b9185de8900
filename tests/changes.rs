use sysrepo::{
    handler_code, oper_get_output, SrError, EngineCall, LibYang, LibYangCtx, LydAnyDataValueType, LydNode, LydValue,
    NewPathTarget, SrChangeIter, SrChangeOper, SrEvent, SrNotifType, SrSession,
};

#[test]
fn scripted_diff_yields_three_changes_then_exhaustion() {
    // (rc, oper, old, new) as the engine reports each step.
    let script = [(0, 0u32, 0u64, 0xA1u64), (0, 1, 0xB0, 0xB1), (0, 2, 0xC0, 0), (5, 0, 0, 0)];
    let mut seen = Vec::new();
    for (rc, oper, old, new) in script {
        match SrSession::get_change_next(rc, oper, old, new) {
            Some((op, o, n)) => seen.push((op, o.is_present(), n.is_present())),
            None => break,
        }
    }
    assert_eq!(
        seen,
        vec![
            (SrChangeOper::Created, false, true),
            (SrChangeOper::Modified, true, true),
            (SrChangeOper::Deleted, true, false),
        ]
    );
}

#[test]
fn unknown_operation_ends_iteration() {
    assert!(SrSession::get_change_next(0, 9, 1, 2).is_none());
    let (op, o, n) = SrSession::get_change_next(0, 3, 0x1, 0x2).unwrap();
    assert_eq!(op, SrChangeOper::Moved);
    assert_eq!(o.release(), vec![EngineCall::FreeVal(0x1)]);
    assert_eq!(n.release(), vec![EngineCall::FreeVal(0x2)]);
}

#[test]
fn change_iterator_released_once() {
    let it = SrChangeIter::from(0x77);
    assert_eq!(it.iter(), 0x77);
    assert_eq!(it.release(), vec![EngineCall::FreeChangeIter(0x77)]);
}

#[test]
fn create_path_needs_exactly_one_anchor() {
    let parent = LydNode::from(0x5);
    let ctx = LibYangCtx::from(0x6);
    assert_eq!(LibYang::new_path_target(Some(&parent), Some(&ctx)), Err(1));
    assert_eq!(LibYang::new_path_target(None, None), Err(1));
    assert_eq!(LibYang::new_path_target(Some(&parent), None), Ok(NewPathTarget::Parent(0x5)));
    assert_eq!(LibYang::new_path_target(None, Some(&ctx)), Ok(NewPathTarget::Context(0x6)));
    assert_eq!(LibYang::new_path_result(0, 0x9).map(|n| n.get_node()), Ok(0x9));
    assert_eq!(LibYang::new_path_result(3, 0).map(|n| n.get_node()), Err(3));
}

#[test]
fn node_release_modes() {
    assert_eq!(LydNode::from(0x8).free_all(), vec![EngineCall::FreeAll(0x8)]);
    assert_eq!(LydNode::from(0x8).free_siblings(), vec![EngineCall::FreeSiblings(0x8)]);
    assert_eq!(LydNode::from(0x8).free_tree(), vec![EngineCall::FreeTree(0x8)]);
    assert!(LydNode::from(0).free_tree().is_empty());
}

#[test]
fn anydata_value_is_string_content() {
    let v = LydValue::from_string("<a/>".to_string());
    assert_eq!(v.get_value(), "<a/>");
    assert_eq!(v.get_type(), LydAnyDataValueType::String);
    assert_eq!(LydAnyDataValueType::String.code(), 1);
}

#[test]
fn oper_get_reply_keeps_parent_when_declined() {
    assert_eq!(oper_get_output(Ok(None), 0x40), (0x40, 0));
    assert_eq!(oper_get_output(Ok(Some(LydNode::from(0x41))), 0x40), (0x41, 0));
    assert_eq!(oper_get_output(Err(SrError::CallbackFailed), 0x40), (0x40, 14));
}

#[test]
fn handler_results_pass_through() {
    assert_eq!(handler_code(Ok(())), 0);
    assert_eq!(handler_code(Err(SrError::CallbackShelve)), 15);
    assert_eq!(handler_code(Err(SrError::CallbackFailed)), 14);
}

#[test]
fn enum_decoding() {
    assert_eq!(SrEvent::try_from(1), Some(SrEvent::Change));
    assert_eq!(SrEvent::try_from(6), None);
    assert_eq!(SrEvent::Rpc.as_str(), "RPC");
    assert_eq!(SrChangeOper::Deleted.as_str(), "Deleted");
    assert_eq!(SrNotifType::try_from(2), Some(SrNotifType::ReplayComplete));
    assert_eq!(SrNotifType::try_from(7), None);
    assert_eq!(SrChangeOper::try_from(4), None);
}
