use khronos_runtime::lifecycle::{
    ReturnValueError, RuntimeCreateOpts, RuntimeError, RuntimeManager, RuntimeState, SpawnResult, VmState,
};

fn opts(limit: Option<u64>) -> RuntimeCreateOpts {
    RuntimeCreateOpts { disable_task_lib: false, time_limit: limit, give_time: 100 }
}

#[test]
fn interrupt_follows_the_clock() {
    let mut rt = RuntimeState::new(opts(Some(1000)), 0);
    assert_eq!(rt.stop_time(), Some(1000));
    assert_eq!(rt.interrupt(1000), Ok(VmState::Continue));
    assert_eq!(rt.interrupt(1001), Err(RuntimeError::TimeLimitExceeded));
    rt.update_last_execution_time(5000);
    assert_eq!(rt.last_execution_time(), Some(5000));
    assert_eq!(rt.interrupt(5900), Ok(VmState::Continue));
    rt.on_resume(5950);
    assert_eq!(rt.stop_time(), Some(6050));
    rt.on_resume(5000);
    assert_eq!(rt.stop_time(), Some(6050));
    assert_eq!(RuntimeError::TimeLimitExceeded.message(), "Script execution time limit exceeded");
}

#[test]
fn no_limit_never_interrupts() {
    let rt = RuntimeState::new(opts(None), 0);
    assert_eq!(rt.interrupt(u64::MAX), Ok(VmState::Continue));
}

#[test]
fn breaking_closes_and_yields() {
    let mut rt = RuntimeState::new(opts(Some(10)), 0);
    assert!(!rt.mark_broken(true));
    assert!(rt.is_broken() && rt.is_closed());
    assert_eq!(rt.interrupt(1_000_000), Ok(VmState::Yield));
    assert_eq!(rt.vm(), Err(RuntimeError::VmNotValid));
    assert_eq!(RuntimeError::VmNotValid.message(), "Lua VM is not valid");
}

#[test]
fn memory_errors_break_the_runtime() {
    let mut rt = RuntimeState::new(opts(None), 0);
    rt.set_on_broken();
    assert!(!rt.handle_error(false));
    assert!(!rt.is_broken());
    assert!(rt.handle_error(true));
    assert!(rt.is_broken());
}

#[test]
fn manager_drops_isolates_when_runtime_breaks() {
    let mut rt = RuntimeState::new(opts(None), 0);
    let mut m: RuntimeManager<u32> = RuntimeManager::new(&mut rt);
    assert!(rt.has_on_broken());
    m.set_main_isolate(1);
    m.add_sub_isolate("a".to_string(), 2);
    m.add_sub_isolate("b".to_string(), 3);
    assert_eq!(m.get_sub_isolate(&"a".to_string()), Some(&2));
    assert_eq!(m.remove_sub_isolate(&"b".to_string()), Some(3));
    assert_eq!(m.sub_isolate_count(), 1);
    m.set_on_broken();
    assert!(m.runtime_broken());
    assert_eq!(m.main_isolate(), None);
    assert_eq!(m.sub_isolate_count(), 0);
    assert!(!m.runtime_broken());
}

#[test]
fn spawn_result_values() {
    let r = SpawnResult::new(Some(vec![10, 20]));
    assert_eq!(r.value_at(1), Ok(&20));
    assert_eq!(r.value_at(2), Err(ReturnValueError::MissingIndex { idx: 2, count: 2 }));
    assert_eq!(ReturnValueError::MissingIndex { idx: 2, count: 2 }.message(), "Return value at index 2 does not exist (only 2 values returned)");
    let none: SpawnResult<i32> = SpawnResult::new(None);
    assert_eq!(none.value_at(0), Err(ReturnValueError::NoReturnValue));
    assert!(none.into_values().is_empty());
}
