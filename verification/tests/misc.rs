use khronos_runtime::kv::{KvRecord, StoredKvRecord};
use khronos_runtime::caps::{check_action, check_datastore_action, format_values, CapError, Chunk, Plugin};
use khronos_runtime::channel::{check_timeout, get_safe_delay, on_expired, schedule, Batch, BatchStatus, ChannelError, ExpiryAction, RecvEvent, MAX_QUEUE_DELAY_NANOS};
use khronos_runtime::lockdowns::{parse_lockdown_id, LockdownAddStatus, LockdownRemoveStatus, StatusField};
use khronos_runtime::pages::{Column, ColumnSuggestion, ColumnType, InnerColumnType, OperationType, Page, PageError, SettingOperations};
use khronos_runtime::promise::{LuaPromise, PromiseError};
use khronos_runtime::stings::{StingAggregate, StingState, StingTarget};
use khronos_runtime::typesext::{check_overlay, randstring, TypesExtError, VfsLayer};
use khronos_runtime::wasm::{SharedWasmLimits, WasmRun, WasmRunError};

#[test]
fn plugin_capabilities() {
    let caps = |c: &str| c == "lockdown:apply" || c == "luau:*" || c == "datastore:kv:get";
    assert!(check_action(Plugin::Lockdown, "apply", &caps).is_ok());
    let e = check_action(Plugin::Lockdown, "remove", &caps).unwrap_err();
    assert_eq!(e.message(), "Lockdown action is not allowed in this template context");
    assert!(check_action(Plugin::Luau, "eval.call", &caps).is_ok());
    let e = check_action(Plugin::ObjectStorage, "upload_file", &caps).unwrap_err();
    assert_eq!(e.message(), "Objectstorage action `upload_file` not allowed in this template context");
    assert!(check_datastore_action("kv", "get", true, &caps).is_ok());
    let e = check_datastore_action("kv", "set", true, &caps).unwrap_err();
    assert_eq!(e.message(), "Datastore action is not allowed in this template context: data store: kv, action: set");
    assert!(check_datastore_action("kv", "set", false, &caps).is_ok());
}

#[test]
fn luau_chunks() {
    let none = |_: &str| false;
    assert!(matches!(Chunk::<()>::load("return 1".to_string(), &none), Err(CapError::LuauEvalDenied)));
    let all = |c: &str| c == "luau:*";
    let mut chunk: Chunk<()> = Chunk::load("return 1".to_string(), &all).unwrap();
    assert!(matches!(chunk.set_optimization_level(3, &all), Err(CapError::InvalidOptimizationLevel)));
    assert!(chunk.set_optimization_level(2, &all).is_ok());
    assert_eq!(chunk.optimization_level, Some(2));
    let only_eval = |c: &str| c == "luau:eval";
    assert!(chunk.set_code("x".to_string(), &only_eval).is_err());
    assert_eq!(chunk.code, "return 1");
    assert_eq!(format_values(&vec![]), "nil");
    assert_eq!(format_values(&vec!["1".to_string(), "\"a\"".to_string()]), "1\t\"a\"");
}

#[test]
fn channel_rules() {
    assert!(check_timeout(7_000_000_000).is_ok());
    assert_eq!(check_timeout(7_000_000_001), Err(ChannelError::TimeoutTooLarge));
    assert_eq!(get_safe_delay(u128::MAX / 2), MAX_QUEUE_DELAY_NANOS);
    assert_eq!(schedule(10, 5), (15, 5));
    assert_eq!(on_expired(10, 15), ExpiryAction::Reinsert(5));
    assert_eq!(on_expired(15, 15), ExpiryAction::Deliver);

    let mut b = Batch::new(2);
    b.feed(RecvEvent::Value('a'));
    assert!(b.wants_more());
    b.feed(RecvEvent::Value('b'));
    assert!(!b.wants_more());
    let (vals, status) = b.finish();
    assert_eq!((vals, status.name()), (vec!['a', 'b'], "completed"));
    let mut t: Batch<u8> = Batch::new(3);
    t.feed(RecvEvent::Value(1));
    t.feed(RecvEvent::TimedOut);
    assert_eq!(t.finish(), (vec![1], BatchStatus::Timeout));
    let mut c: Batch<u8> = Batch::new(3);
    c.feed(RecvEvent::Closed);
    assert_eq!(c.finish().1.name(), "closed");
}

#[test]
fn pages_and_columns() {
    let page = Page { title: "t".repeat(256), description: "d".to_string(), settings: vec![] };
    assert!(page.validate().is_ok());
    let long = Page { title: "t".repeat(257), description: String::new(), settings: vec![] };
    assert_eq!(long.validate(), Err(PageError::TitleTooLong));
    assert_eq!(PageError::DescriptionTooLong.message(), "Description is too long");
    let col = |id: &str, name: &str| Column {
        id: id.to_string(),
        name: name.to_string(),
        description: String::new(),
        column_type: ColumnType::Scalar { inner: InnerColumnType::Boolean {} },
        nullable: false,
        suggestions: ColumnSuggestion::Nothing {},
        secret: false,
        ignored_for: vec![OperationType::Create],
    };
    assert!(col("a", "x") == col("a", "y"));
    assert!(col("a", "x") != col("b", "x"));
    let ops = SettingOperations { view: true, create: false, update: true, delete: false };
    assert!(ops.supports(OperationType::View) && !ops.supports(OperationType::Delete));
}

#[test]
fn lockdown_outcomes() {
    let id = parse_lockdown_id("67e55044-10b1-426f-9247-bb680e5fe0c8").unwrap();
    assert_eq!(id, 0x67e5504410b1426f9247bb680e5fe0c8);
    assert!(parse_lockdown_id("nope").unwrap_err().message().starts_with("Invalid UUID: "));
    let ok: LockdownAddStatus<()> = LockdownAddStatus::Applied(5);
    assert!(matches!(ok.field("ok"), StatusField::Bool(true)));
    assert!(matches!(ok.field("id"), StatusField::Id(5)));
    assert!(matches!(ok.field("type"), StatusField::Text("Ok")));
    let err: LockdownRemoveStatus<()> = LockdownRemoveStatus::Error("bad".to_string());
    assert!(matches!(err.field("error"), StatusField::Error("bad")));
    assert!(matches!(err.field("id"), StatusField::Nil));
    let failed: LockdownRemoveStatus<u8> = LockdownRemoveStatus::LockdownTestFailed(9);
    assert!(matches!(failed.field("test_result"), StatusField::TestResult(9)));
}

#[test]
fn promises_run_once() {
    let mut p = LuaPromise::new(42);
    assert_eq!(p.take(), Ok(42));
    assert_eq!(p.take(), Err(PromiseError::AlreadyYielded));
}

#[test]
fn stings() {
    assert_eq!(StingState::from_str("voided").unwrap(), StingState::Voided);
    assert_eq!(StingState::Handled.to_string(), "handled");
    assert_eq!(StingTarget::from_str("user:42").unwrap(), StingTarget::User(42));
    assert_eq!(StingTarget::System.to_string(), "system");
    let agg = vec![
        StingAggregate { src: None, target: StingTarget::User(1), total_stings: 3 },
        StingAggregate { src: None, target: StingTarget::User(1), total_stings: 2 },
        StingAggregate { src: None, target: StingTarget::System, total_stings: 4 },
    ];
    assert_eq!(StingAggregate::total_stings(agg.clone()), 9);
    let (per_user, system) = StingAggregate::total_stings_per_user(agg);
    assert_eq!(per_user.get(&1), Some(&9));
    assert_eq!(system, 4);
}

#[test]
fn random_strings_and_overlays() {
    let s = randstring(16).unwrap();
    assert_eq!(s.len(), 16);
    assert!(s.chars().all(|c| c.is_ascii_alphanumeric()));
    assert_eq!(randstring(0), Err(TypesExtError::InvalidLength));
    assert_eq!(randstring(256), Err(TypesExtError::InvalidLength));
    assert_eq!(check_overlay(&vec![VfsLayer::Memory, VfsLayer::Opaque(true)]), Ok(true));
    assert_eq!(check_overlay(&vec![VfsLayer::Vfs]), Ok(false));
    assert_eq!(check_overlay(&vec![VfsLayer::Other, VfsLayer::Opaque(false)]), Err(TypesExtError::NotVfs));
}

#[test]
fn wasm_budget_and_runs() {
    let mut limits = SharedWasmLimits::new(100);
    assert!(limits.memory_growing(0, 60));
    assert!(!limits.memory_growing(60, 110));
    assert_eq!(limits.allocated_memory, 60);
    assert!(limits.memory_growing(10, 50));
    assert_eq!(limits.allocated_memory, 100);
    let mut run = WasmRun::Ready;
    assert!(run.wait().is_err());
    assert!(run.start().is_ok());
    assert_eq!(run.start(), Err(WasmRunError::AlreadyStarted));
    assert!(run.wait().is_ok());
    assert_eq!(run.wait().unwrap_err().message(), "WASM is not running or has already been waited on");
}

#[test]
fn kv_records() {
    let stored = StoredKvRecord { id: "1".to_string(), key: "k".to_string(), value: 7, scope: "s".to_string(), created_at: Some(10u64), last_updated_at: None };
    let rec = KvRecord::from_lookup(Some(stored), 0);
    assert!(rec.exists);
    assert_eq!((rec.key.as_str(), rec.value), ("k", 7));
    let missing: KvRecord<i32, u64> = KvRecord::from_lookup(None, 0);
    assert!(!missing.exists);
    assert_eq!(missing.id, "");
    let back = rec.into_stored();
    assert_eq!(back.created_at, Some(10));
}
