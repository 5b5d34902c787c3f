//! The life of a script runtime: whether its VM is broken or closed, what happens when it
//! breaks, and how long a script may run before it is interrupted. Times are nanoseconds on a
//! monotonic clock; durations are nanoseconds.
use vstd::prelude::*;
use crate::keyed::KeyedVec;
use crate::text::{append_str, format_u64, decimal};

verus! {

/// Options a runtime is created with.
#[derive(Debug, Clone, Copy, PartialEq, Eq, Structural)]
pub struct RuntimeCreateOpts {
    /// Whether the `task` library is left out.
    pub disable_task_lib: bool,
    /// How long a script may run, if there is a limit.
    pub time_limit: Option<u64>,
    /// How long a resumed thread is always allowed to run.
    pub give_time: u64,
}

/// What the interrupt tells the VM to do.
#[derive(Debug, Clone, Copy, PartialEq, Eq, Structural)]
pub enum VmState {
    Continue,
    Yield,
}

/// Why the runtime refused to go on.
#[derive(Debug, Clone, Copy, PartialEq, Eq, Structural)]
pub enum RuntimeError {
    /// The script ran past its stop time.
    TimeLimitExceeded,
    /// The VM has been closed.
    VmNotValid,
}

impl RuntimeError {
    /// The error's message.
    pub fn message(&self) -> (r: &'static str)
        ensures
            r@ == runtime_error_text(*self),
    {
        match self {
            RuntimeError::TimeLimitExceeded => "Script execution time limit exceeded",
            RuntimeError::VmNotValid => "Lua VM is not valid",
        }
    }
}

/// The message of a runtime error.
pub open spec fn runtime_error_text(e: RuntimeError) -> Seq<char> {
    match e {
        RuntimeError::TimeLimitExceeded => "Script execution time limit exceeded"@,
        RuntimeError::VmNotValid => "Lua VM is not valid"@,
    }
}

/// The state of a runtime in mathematical form.
pub struct RuntimeView {
    pub broken: bool,
    pub closed: bool,
    pub has_on_broken: bool,
    pub time_limit: Option<u64>,
    pub give_time: u64,
    pub last_execution_time: Option<u64>,
    pub stop_time: Option<u64>,
}

/// The state of a runtime: broken or not, its VM open or closed, whether a callback waits for it
/// to break, and its execution clock.
pub struct RuntimeState {
    broken: bool,
    closed: bool,
    has_on_broken: bool,
    time_limit: Option<u64>,
    last_execution_time: Option<u64>,
    stop_time: Option<u64>,
    opts: RuntimeCreateOpts,
}

impl View for RuntimeState {
    type V = RuntimeView;

    closed spec fn view(&self) -> RuntimeView {
        RuntimeView {
            broken: self.broken,
            closed: self.closed,
            has_on_broken: self.has_on_broken,
            time_limit: self.time_limit,
            give_time: self.opts.give_time,
            last_execution_time: self.last_execution_time,
            stop_time: self.stop_time,
        }
    }
}

/// A closed VM is always a broken one.
pub open spec fn runtime_wf(v: RuntimeView) -> bool {
    v.closed ==> v.broken
}

/// Whether `time + limit` fits the clock.
pub open spec fn limit_fits(time: u64, limit: Option<u64>) -> bool {
    match limit {
        Some(l) => time + l <= u64::MAX,
        None => true,
    }
}

/// The stop time of a run that started at `time`: `time` plus the limit, if there is one.
pub open spec fn stop_after(time: u64, limit: Option<u64>) -> Option<u64> {
    match limit {
        Some(l) => Some((time + l) as u64),
        None => None,
    }
}

/// A new runtime created at `now`: not broken, open, no callback, and its stop time one limit
/// from now.
pub open spec fn new_spec(opts: RuntimeCreateOpts, now: u64) -> RuntimeView {
    RuntimeView {
        broken: false,
        closed: false,
        has_on_broken: false,
        time_limit: opts.time_limit,
        give_time: opts.give_time,
        last_execution_time: None,
        stop_time: stop_after(now, opts.time_limit),
    }
}

/// Closing marks the runtime broken and drops its VM.
pub open spec fn close_spec(v: RuntimeView) -> RuntimeView {
    RuntimeView { broken: true, closed: true, ..v }
}

/// A run starting at `time`: it is the last execution time, and the stop time is one limit on.
pub open spec fn update_spec(v: RuntimeView, time: u64) -> RuntimeView {
    RuntimeView { last_execution_time: Some(time), stop_time: stop_after(time, v.time_limit), ..v }
}

/// What the interrupt decides at `now`: a broken runtime yields, one past its stop time fails,
/// and any other goes on.
pub open spec fn interrupt_spec(v: RuntimeView, now: u64) -> Result<VmState, RuntimeError> {
    if v.broken {
        Ok(VmState::Yield)
    } else {
        match v.stop_time {
            Some(stop) => if now > stop {
                Err(RuntimeError::TimeLimitExceeded)
            } else {
                Ok(VmState::Continue)
            },
            None => Ok(VmState::Continue),
        }
    }
}

/// A resumed thread gets at least the give time: a stop time sooner than `now` plus the give
/// time is moved out to it.
pub open spec fn resume_spec(v: RuntimeView, now: u64) -> RuntimeView {
    match v.stop_time {
        Some(stop) => if stop < now + v.give_time {
            RuntimeView { stop_time: Some((now + v.give_time) as u64), ..v }
        } else {
            v
        },
        None => v,
    }
}

impl RuntimeState {
    /// A new runtime, created at `now`.
    pub fn new(opts: RuntimeCreateOpts, now: u64) -> (r: RuntimeState)
        requires
            limit_fits(now, opts.time_limit),
        ensures
            r@ == new_spec(opts, now),
            r.opts() == opts,
    {
        let stop_time = match opts.time_limit {
            Some(l) => Some(now + l),
            None => None,
        };
        RuntimeState {
            broken: false,
            closed: false,
            has_on_broken: false,
            time_limit: opts.time_limit,
            last_execution_time: None,
            stop_time,
            opts,
        }
    }

    /// The options the runtime was created with.
    pub closed spec fn opts(&self) -> RuntimeCreateOpts {
        self.opts
    }

    /// The options the runtime was created with.
    pub fn get_opts(&self) -> (r: RuntimeCreateOpts)
        ensures
            r == self.opts(),
    {
        self.opts
    }

    /// Whether the runtime is broken.
    pub fn is_broken(&self) -> (r: bool)
        ensures
            r == self@.broken,
    {
        self.broken
    }

    /// Whether the VM has been closed.
    pub fn is_closed(&self) -> (r: bool)
        ensures
            r == self@.closed,
    {
        self.closed
    }

    /// Whether a callback waits for the runtime to break.
    pub fn has_on_broken(&self) -> (r: bool)
        ensures
            r == self@.has_on_broken,
    {
        self.has_on_broken
    }

    /// Records that a callback waits for the runtime to break.
    pub fn set_on_broken(&mut self)
        ensures
            final(self)@ == (RuntimeView { has_on_broken: true, ..old(self)@ }),
            final(self).opts() == old(self).opts(),
    {
        self.has_on_broken = true;
    }

    /// The time limit of a run.
    pub fn time_limit(&self) -> (r: Option<u64>)
        ensures
            r == self@.time_limit,
    {
        self.time_limit
    }

    /// Changes the time limit; the current stop time stays as it is.
    pub fn set_time_limit(&mut self, limit: Option<u64>)
        ensures
            final(self)@ == (RuntimeView { time_limit: limit, ..old(self)@ }),
            final(self).opts() == old(self).opts(),
    {
        self.time_limit = limit;
    }

    /// When the last run started, if one did.
    pub fn last_execution_time(&self) -> (r: Option<u64>)
        ensures
            r == self@.last_execution_time,
    {
        self.last_execution_time
    }

    /// When the current run must stop, if it must.
    pub fn stop_time(&self) -> (r: Option<u64>)
        ensures
            r == self@.stop_time,
    {
        self.stop_time
    }

    /// Starts a run at `time`.
    pub fn update_last_execution_time(&mut self, time: u64)
        requires
            limit_fits(time, old(self)@.time_limit),
        ensures
            final(self)@ == update_spec(old(self)@, time),
            final(self).opts() == old(self).opts(),
    {
        self.last_execution_time = Some(time);
        self.stop_time = match self.time_limit {
            Some(l) => Some(time + l),
            None => None,
        };
    }

    /// Closes the VM and marks the runtime broken; no callback is run.
    pub fn close(&mut self)
        ensures
            final(self)@ == close_spec(old(self)@),
            final(self).opts() == old(self).opts(),
    {
        self.broken = true;
        self.closed = true;
    }

    /// Closes the VM; returns whether the callback waiting for the runtime to break must run,
    /// which it must when `broken` is asked for and a callback is set.
    pub fn mark_broken(&mut self, broken: bool) -> (run_callback: bool)
        ensures
            final(self)@ == close_spec(old(self)@),
            final(self).opts() == old(self).opts(),
            run_callback == (broken && old(self)@.has_on_broken),
    {
        self.close();
        broken && self.has_on_broken
    }

    /// What an error does to the runtime: a memory error breaks it (and the callback waiting
    /// for that must run, which the result says); any other leaves it as it is.
    pub fn handle_error(&mut self, memory_error: bool) -> (run_callback: bool)
        ensures
            memory_error ==> final(self)@ == close_spec(old(self)@),
            !memory_error ==> final(self)@ == old(self)@,
            final(self).opts() == old(self).opts(),
            run_callback == (memory_error && old(self)@.has_on_broken),
    {
        if memory_error {
            self.mark_broken(true)
        } else {
            false
        }
    }

    /// Access to the VM: refused once it is closed.
    pub fn vm(&self) -> (r: Result<(), RuntimeError>)
        ensures
            r == (if self@.closed { Err(RuntimeError::VmNotValid) } else { Ok::<(), RuntimeError>(()) }),
    {
        if self.closed {
            Err(RuntimeError::VmNotValid)
        } else {
            Ok(())
        }
    }

    /// What the VM's interrupt decides at `now`.
    pub fn interrupt(&self, now: u64) -> (r: Result<VmState, RuntimeError>)
        ensures
            r == interrupt_spec(self@, now),
    {
        if self.broken {
            return Ok(VmState::Yield);
        }
        match self.stop_time {
            Some(stop) => {
                if now > stop {
                    Err(RuntimeError::TimeLimitExceeded)
                } else {
                    Ok(VmState::Continue)
                }
            },
            None => Ok(VmState::Continue),
        }
    }

    /// A thread is resumed at `now`.
    pub fn on_resume(&mut self, now: u64)
        requires
            now + old(self)@.give_time <= u64::MAX,
        ensures
            final(self)@ == resume_spec(old(self)@, now),
            final(self).opts() == old(self).opts(),
    {
        if let Some(stop) = self.stop_time {
            if stop < now + self.opts.give_time {
                self.stop_time = Some(now + self.opts.give_time);
            }
        }
    }
}

/// A new runtime is well formed, and every change keeps it so.
pub proof fn lemma_runtime_wf_kept(opts: RuntimeCreateOpts, now: u64, v: RuntimeView, time: u64)
    requires
        runtime_wf(v),
    ensures
        runtime_wf(new_spec(opts, now)),
        runtime_wf(close_spec(v)),
        runtime_wf(update_spec(v, time)),
        runtime_wf(resume_spec(v, now)),
{
}

/// Closing twice is closing once.
pub proof fn lemma_close_idempotent(v: RuntimeView)
    ensures
        close_spec(close_spec(v)) == close_spec(v),
{
}

/// Once a runtime is broken, every interrupt makes the VM yield, whatever the clock says.
pub proof fn lemma_broken_always_yields(v: RuntimeView, now: u64, time: u64)
    ensures
        interrupt_spec(close_spec(v), now) == Ok::<VmState, RuntimeError>(VmState::Yield),
        v.broken ==> interrupt_spec(v, now) == Ok::<VmState, RuntimeError>(VmState::Yield),
        v.broken ==> interrupt_spec(update_spec(v, time), now) == Ok::<VmState, RuntimeError>(VmState::Yield),
{
}

/// A run that started at `time` is never stopped before its time limit is used up.
pub proof fn lemma_run_gets_its_limit(v: RuntimeView, time: u64, now: u64)
    requires
        !v.broken,
        limit_fits(time, v.time_limit),
        v.time_limit matches Some(l) ==> now <= time + l,
    ensures
        interrupt_spec(update_spec(v, time), now) == Ok::<VmState, RuntimeError>(VmState::Continue),
{
}

/// A run with no time limit is never stopped for time.
pub proof fn lemma_no_limit_never_stops(v: RuntimeView, time: u64, now: u64)
    requires
        !v.broken,
        v.time_limit is None,
    ensures
        interrupt_spec(update_spec(v, time), now) == Ok::<VmState, RuntimeError>(VmState::Continue),
{
}

/// Resuming never brings the stop time closer, and a thread resumed at `now` may run at least
/// until `now` plus the give time.
pub proof fn lemma_resume_gives_time(v: RuntimeView, now: u64, later: u64)
    requires
        !v.broken,
        now + v.give_time <= u64::MAX,
        now <= later <= now + v.give_time,
    ensures
        v.stop_time matches Some(s) ==> (resume_spec(v, now).stop_time matches Some(t) && s <= t),
        v.stop_time is None ==> resume_spec(v, now).stop_time is None,
        interrupt_spec(resume_spec(v, now), later) == Ok::<VmState, RuntimeError>(VmState::Continue),
{
}

/// Named access to the isolates that share one runtime: a main isolate and sub-isolates by name,
/// all dropped when the runtime breaks.
pub struct RuntimeManager<T> {
    sub_isolates: KeyedVec<String, T>,
    main_isolate: Option<T>,
    has_on_broken: bool,
}

impl<T> RuntimeManager<T> {
    /// The sub-isolates by name.
    pub closed spec fn subs(&self) -> Map<Seq<char>, T> {
        self.sub_isolates@
    }

    /// The main isolate, if set.
    pub closed spec fn main_spec(&self) -> Option<T> {
        self.main_isolate
    }

    /// Whether a callback waits for the runtime to break.
    pub closed spec fn on_broken_set(&self) -> bool {
        self.has_on_broken
    }

    /// The manager is well formed.
    pub closed spec fn wf(&self) -> bool {
        self.sub_isolates.wf()
    }

    /// A manager for `rt`, which must have no callback of its own: the manager installs the one
    /// that drops its isolates.
    pub fn new(rt: &mut RuntimeState) -> (r: RuntimeManager<T>)
        requires
            !old(rt)@.has_on_broken,
        ensures
            r.wf(),
            r.subs() == Map::<Seq<char>, T>::empty(),
            r.main_spec() is None,
            !r.on_broken_set(),
            final(rt)@ == (RuntimeView { has_on_broken: true, ..old(rt)@ }),
            final(rt).opts() == old(rt).opts(),
    {
        rt.set_on_broken();
        RuntimeManager { sub_isolates: KeyedVec::new(), main_isolate: None, has_on_broken: false }
    }

    /// Sets the main isolate.
    pub fn set_main_isolate(&mut self, isolate: T)
        requires
            old(self).wf(),
        ensures
            final(self).wf(),
            final(self).main_spec() == Some(isolate),
            final(self).subs() == old(self).subs(),
            final(self).on_broken_set() == old(self).on_broken_set(),
    {
        self.main_isolate = Some(isolate);
    }

    /// The main isolate, if set.
    pub fn main_isolate(&self) -> (r: Option<&T>)
        ensures
            r == (match self.main_spec() { Some(m) => Some(&m), None => None::<&T> }),
    {
        match &self.main_isolate {
            Some(m) => Some(m),
            None => None,
        }
    }

    /// The sub-isolate named `name`, if there is one.
    pub fn get_sub_isolate(&self, name: &String) -> (r: Option<&T>)
        requires
            self.wf(),
        ensures
            r == (if self.subs().contains_key(name@) { Some(&self.subs()[name@]) } else { None::<&T> }),
    {
        self.sub_isolates.get(name)
    }

    /// Adds (or replaces) the sub-isolate named `name`.
    pub fn add_sub_isolate(&mut self, name: String, isolate: T)
        requires
            old(self).wf(),
        ensures
            final(self).wf(),
            final(self).subs() == old(self).subs().insert(name@, isolate),
            final(self).main_spec() == old(self).main_spec(),
            final(self).on_broken_set() == old(self).on_broken_set(),
    {
        self.sub_isolates.insert(name, isolate);
    }

    /// Removes the sub-isolate named `name`, giving it back.
    pub fn remove_sub_isolate(&mut self, name: &String) -> (r: Option<T>)
        requires
            old(self).wf(),
        ensures
            final(self).wf(),
            final(self).subs() == old(self).subs().remove(name@),
            r == (if old(self).subs().contains_key(name@) { Some(old(self).subs()[name@]) } else { None::<T> }),
            final(self).main_spec() == old(self).main_spec(),
            final(self).on_broken_set() == old(self).on_broken_set(),
    {
        self.sub_isolates.remove(name)
    }

    /// Drops every sub-isolate.
    pub fn clear_sub_isolates(&mut self)
        requires
            old(self).wf(),
        ensures
            final(self).wf(),
            final(self).subs() == Map::<Seq<char>, T>::empty(),
            final(self).main_spec() == old(self).main_spec(),
            final(self).on_broken_set() == old(self).on_broken_set(),
    {
        self.sub_isolates.clear();
    }

    /// The number of sub-isolates.
    pub fn sub_isolate_count(&self) -> (r: usize)
        requires
            self.wf(),
        ensures
            r == self.subs().len(),
    {
        self.sub_isolates.len()
    }

    /// Whether a callback waits for the runtime to break.
    pub fn has_on_broken(&self) -> (r: bool)
        ensures
            r == self.on_broken_set(),
    {
        self.has_on_broken
    }

    /// Records that a callback waits for the runtime to break.
    pub fn set_on_broken(&mut self)
        requires
            old(self).wf(),
        ensures
            final(self).wf(),
            final(self).on_broken_set(),
            final(self).subs() == old(self).subs(),
            final(self).main_spec() == old(self).main_spec(),
    {
        self.has_on_broken = true;
    }

    /// What the manager does when its runtime breaks: it drops the main isolate and every
    /// sub-isolate, and takes its callback, which runs (the result says so) this once.
    pub fn runtime_broken(&mut self) -> (run_callback: bool)
        requires
            old(self).wf(),
        ensures
            final(self).wf(),
            final(self).main_spec() is None,
            final(self).subs() == Map::<Seq<char>, T>::empty(),
            !final(self).on_broken_set(),
            run_callback == old(self).on_broken_set(),
    {
        self.main_isolate = None;
        self.clear_sub_isolates();
        let run = self.has_on_broken;
        self.has_on_broken = false;
        run
    }
}

/// Why a script's return value could not be read.
#[derive(Debug, Clone, Copy, PartialEq, Eq, Structural)]
pub enum ReturnValueError {
    /// The script returned nothing.
    NoReturnValue,
    /// The script returned fewer values than the index asked for.
    MissingIndex { idx: usize, count: usize },
}

impl ReturnValueError {
    /// The error's message.
    pub fn message(&self) -> (r: String)
        ensures
            r@ == return_error_text(*self),
    {
        match self {
            ReturnValueError::NoReturnValue => "No return value from script".to_string(),
            ReturnValueError::MissingIndex { idx, count } => {
                let mut s = "Return value at index ".to_string();
                let i = format_u64(*idx as u64);
                append_str(&mut s, i.as_str());
                append_str(&mut s, " does not exist (only ");
                let c = format_u64(*count as u64);
                append_str(&mut s, c.as_str());
                append_str(&mut s, " values returned)");
                s
            },
        }
    }
}

/// The message of a return value error.
pub open spec fn return_error_text(e: ReturnValueError) -> Seq<char> {
    match e {
        ReturnValueError::NoReturnValue => "No return value from script"@,
        ReturnValueError::MissingIndex { idx, count } => "Return value at index "@ + decimal(idx as nat)
            + " does not exist (only "@ + decimal(count as nat) + " values returned)"@,
    }
}

/// What a spawned script returned: its values, or nothing when it did not finish.
pub struct SpawnResult<T> {
    result: Option<Vec<T>>,
}

impl<T> SpawnResult<T> {
    /// The returned values, if the script finished.
    pub closed spec fn values(&self) -> Option<Seq<T>> {
        match self.result {
            Some(v) => Some(v@),
            None => None,
        }
    }

    /// A result holding `result`.
    pub fn new(result: Option<Vec<T>>) -> (r: SpawnResult<T>)
        ensures
            r.values() == (match result { Some(v) => Some(v@), None => None::<Seq<T>> }),
    {
        SpawnResult { result }
    }

    /// The returned values; none when the script did not finish.
    pub fn into_values(self) -> (r: Vec<T>)
        ensures
            r@ == (match self.values() { Some(s) => s, None => Seq::<T>::empty() }),
    {
        match self.result {
            Some(v) => v,
            None => Vec::new(),
        }
    }

    /// The returned value at `idx`.
    pub fn value_at(&self, idx: usize) -> (r: Result<&T, ReturnValueError>)
        ensures
            match self.values() {
                None => r == Err::<&T, ReturnValueError>(ReturnValueError::NoReturnValue),
                Some(s) => if s.len() == 0 {
                    r == Err::<&T, ReturnValueError>(ReturnValueError::NoReturnValue)
                } else if idx < s.len() {
                    r == Ok::<&T, ReturnValueError>(&s[idx as int])
                } else {
                    r == Err::<&T, ReturnValueError>(ReturnValueError::MissingIndex { idx, count: s.len() as usize })
                },
            },
    {
        match &self.result {
            None => Err(ReturnValueError::NoReturnValue),
            Some(values) => {
                if values.len() == 0 {
                    Err(ReturnValueError::NoReturnValue)
                } else if idx < values.len() {
                    Ok(&values[idx])
                } else {
                    Err(ReturnValueError::MissingIndex { idx, count: values.len() })
                }
            },
        }
    }
}

} // verus!
