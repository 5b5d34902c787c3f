//! Promises: work that runs only when a template yields on it, and at most once.
use vstd::prelude::*;

verus! {

/// Why a promise could not be yielded on.
#[derive(Debug, Clone, Copy, PartialEq, Eq, Structural)]
pub enum PromiseError {
    /// The promise already ran.
    AlreadyYielded,
}

/// A promise: its work, until it is taken to run.
pub struct LuaPromise<F> {
    inner: Option<F>,
}

impl<F> LuaPromise<F> {
    /// The work still waiting, if any.
    pub closed spec fn pending(&self) -> Option<F> {
        self.inner
    }

    /// A promise of `work`, not yet run.
    pub fn new(work: F) -> (r: LuaPromise<F>)
        ensures
            r.pending() == Some(work),
    {
        LuaPromise { inner: Some(work) }
    }

    /// Takes the work to run it: the first time it is there, after that it is gone.
    pub fn take(&mut self) -> (r: Result<F, PromiseError>)
        ensures
            final(self).pending() is None,
            match old(self).pending() {
                Some(w) => r == Ok::<F, PromiseError>(w),
                None => r == Err::<F, PromiseError>(PromiseError::AlreadyYielded),
            },
    {
        match self.inner.take() {
            Some(w) => Ok(w),
            None => Err(PromiseError::AlreadyYielded),
        }
    }
}

} // verus!
