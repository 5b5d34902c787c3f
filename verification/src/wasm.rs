//! The rules around WebAssembly modules run by templates: a memory budget shared by every
//! module of a runtime, and the life of one module's run (started once, waited on once).
use vstd::prelude::*;

verus! {

/// The memory budget shared by the modules of a runtime: how much they may hold in all, and how
/// much they hold.
#[derive(Debug, Clone, Copy, PartialEq, Eq, Structural)]
pub struct SharedWasmLimits {
    pub max_memory: usize,
    pub allocated_memory: usize,
}

impl SharedWasmLimits {
    /// A budget of `max_memory` bytes with nothing held.
    pub fn new(max_memory: usize) -> (r: SharedWasmLimits)
        ensures
            r.max_memory == max_memory,
            r.allocated_memory == 0,
    {
        SharedWasmLimits { max_memory, allocated_memory: 0 }
    }

    /// A memory asks to grow from `current` to `desired` bytes: allowed, and counted, when the
    /// growth fits in what the budget has left; refused, and not counted, otherwise.
    pub fn memory_growing(&mut self, current: usize, desired: usize) -> (r: bool)
        requires
            current <= desired,
            old(self).allocated_memory <= old(self).max_memory,
        ensures
            final(self).max_memory == old(self).max_memory,
            r == (old(self).allocated_memory + (desired - current) <= old(self).max_memory),
            r ==> final(self).allocated_memory == old(self).allocated_memory + (desired - current),
            !r ==> final(self).allocated_memory == old(self).allocated_memory,
            final(self).allocated_memory <= final(self).max_memory,
    {
        let addition = desired - current;
        if addition > self.max_memory - self.allocated_memory {
            return false;
        }
        self.allocated_memory = self.allocated_memory + addition;
        true
    }

    /// Tables may always grow.
    pub fn table_growing(&self, current: u32, desired: u32) -> (r: bool)
        ensures
            r,
    {
        true
    }
}

/// Where a module's run stands.
#[derive(Debug, Clone, Copy, PartialEq, Eq, Structural)]
pub enum WasmRun {
    /// Instantiated, not started.
    Ready,
    /// Started; its end not yet waited on.
    Running,
    /// Started and waited on.
    Waited,
}

/// Why a run request was refused.
#[derive(Debug, Clone, Copy, PartialEq, Eq, Structural)]
pub enum WasmRunError {
    AlreadyStarted,
    NotRunning,
}

impl WasmRunError {
    /// The error's message.
    pub fn message(&self) -> (r: &'static str)
        ensures
            r@ == (match *self {
                WasmRunError::AlreadyStarted => "WASM is already running or has finished"@,
                WasmRunError::NotRunning => "WASM is not running or has already been waited on"@,
            }),
    {
        match self {
            WasmRunError::AlreadyStarted => "WASM is already running or has finished",
            WasmRunError::NotRunning => "WASM is not running or has already been waited on",
        }
    }
}

impl WasmRun {
    /// Starts the run: only a ready module starts.
    pub fn start(&mut self) -> (r: Result<(), WasmRunError>)
        ensures
            *old(self) == WasmRun::Ready ==> r is Ok && *final(self) == WasmRun::Running,
            *old(self) != WasmRun::Ready ==> r == Err::<(), WasmRunError>(WasmRunError::AlreadyStarted) && *final(self) == *old(self),
    {
        match self {
            WasmRun::Ready => {
                *self = WasmRun::Running;
                Ok(())
            },
            _ => Err(WasmRunError::AlreadyStarted),
        }
    }

    /// Waits for the run's end: only a running module is waited on, once.
    pub fn wait(&mut self) -> (r: Result<(), WasmRunError>)
        ensures
            *old(self) == WasmRun::Running ==> r is Ok && *final(self) == WasmRun::Waited,
            *old(self) != WasmRun::Running ==> r == Err::<(), WasmRunError>(WasmRunError::NotRunning) && *final(self) == *old(self),
    {
        match self {
            WasmRun::Running => {
                *self = WasmRun::Waited;
                Ok(())
            },
            _ => Err(WasmRunError::NotRunning),
        }
    }
}

} // verus!
