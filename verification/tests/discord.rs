use khronos_runtime::discord::{ModifyRolePosition, RolePositionOrder};
use khronos_runtime::discord::{
    bulk_op_limit, bulk_wait_begin, bulk_wait_end, check_action, check_reason, start_bulk_op, ActionCheck,
    BulkOpData, BulkOpLimit, DiscordActionError, WaitStep,
};

fn all_caps(_: &str) -> bool {
    true
}

#[test]
fn bulk_limits_table() {
    assert_eq!(bulk_op_limit(Some("create_message")), BulkOpLimit { max_ops: 1, min_wait_ms: 1200 });
    assert_eq!(bulk_op_limit(Some("create_guild_role")), BulkOpLimit { max_ops: 1, min_wait_ms: 2200 });
    assert_eq!(bulk_op_limit(Some("delete_guild_role")), BulkOpLimit { max_ops: 1, min_wait_ms: 2000 });
    assert_eq!(bulk_op_limit(Some("ban")), BulkOpLimit { max_ops: 1, min_wait_ms: 2500 });
    assert_eq!(bulk_op_limit(None), BulkOpLimit { max_ops: 1, min_wait_ms: 2500 });
}

#[test]
fn missing_capability_is_refused() {
    let only_kick = |c: &str| c == "discord:kick";
    let mut bulk: Option<BulkOpData> = None;
    assert!(matches!(check_action(&only_kick, &mut bulk, "kick", 0), Ok(ActionCheck::RateLimit)));
    let err = check_action(&only_kick, &mut bulk, "ban", 0).unwrap_err();
    assert_eq!(err.message(), "Discord action `ban` not allowed in this template context");
}

#[test]
fn bulk_operation_counts_and_waits() {
    let mut bulk = Some(start_bulk_op(&None, Some("create_message".to_string()), 1000).unwrap());
    assert!(matches!(check_action(&all_caps, &mut bulk, "create_message", 2000), Ok(ActionCheck::Counted)));
    let err = check_action(&all_caps, &mut bulk, "create_message", 2000).unwrap_err();
    assert!(err.message().starts_with("Bulk operation limit reached: create_message."));
    let err = check_action(&all_caps, &mut bulk, "ban", 2000).unwrap_err();
    assert_eq!(err.message(), "Bulk operation action mismatch: expected `create_message`, got `ban`");
    assert!(matches!(check_action(&all_caps, &mut bulk, "antiraid_bulk_op_wait", 2000), Ok(ActionCheck::RateLimit)));

    match bulk_wait_begin(&bulk, 3000).unwrap() {
        WaitStep::Sleep(ms) => assert!((1210..1700).contains(&ms)),
        WaitStep::Done => panic!("expected a sleep"),
    }
    bulk_wait_end(&mut bulk, 4500).unwrap();
    assert_eq!(bulk.as_ref().unwrap().op_performed, 0);
    assert_eq!(bulk.as_ref().unwrap().last_waited, 4500);
    assert!(matches!(bulk_wait_end(&mut bulk, 4600), Err(DiscordActionError::ConcurrentWait)));
    assert!(matches!(bulk_wait_begin(&bulk, 4600), Ok(WaitStep::Done)));
    assert!(matches!(check_action(&all_caps, &mut bulk, "create_message", 20000), Err(DiscordActionError::BulkExpired)));
    assert!(matches!(start_bulk_op(&bulk, None, 0), Err(DiscordActionError::NestedBulkOp)));
    assert!(matches!(bulk_wait_begin(&None, 0), Err(DiscordActionError::NotBulk)));
}

#[test]
fn reasons() {
    assert!(check_reason("spam").is_ok());
    assert_eq!(check_reason("").unwrap_err().message(), "Reason is empty");
    assert_eq!(check_reason(&"x".repeat(513)).unwrap_err().message(), "Reason is too long");
    assert!(check_reason(&"x".repeat(512)).is_ok());
}

#[test]
fn role_positions_order_by_position_then_id() {
    let m = ModifyRolePosition { id: 5, position: 2 };
    assert_eq!(m.compare_role(9, 3), RolePositionOrder::Less);
    assert_eq!(m.compare_role(1, 2), RolePositionOrder::Greater);
    assert_eq!(m.compare_role(5, 2), RolePositionOrder::Equal);
    assert!(m.same_role(5) && !m.same_role(6));
}
