//! The rules of the channel plugin: how long a receive may wait, how a batch receive ends, and
//! when a delayed value is due. Durations and instants are nanoseconds on a monotonic clock.
use vstd::prelude::*;

verus! {

/// The longest a receive may wait: 7 seconds.
pub const MAX_TIMEOUT_NANOS: u128 = 7000000000;

/// The longest delay the delay queue takes at once: its largest duration (2^36 - 1
/// milliseconds) less 5 seconds, in nanoseconds. Longer delays are taken in steps.
pub const MAX_QUEUE_DELAY_NANOS: u128 = 68719471735000000;

/// Why a receive was refused.
#[derive(Debug, Clone, Copy, PartialEq, Eq, Structural)]
pub enum ChannelError {
    TimeoutTooLarge,
}

impl ChannelError {
    /// The error's message.
    pub fn message(&self) -> (r: &'static str)
        ensures
            r@ == "Timeout cannot be greater than the max timeout"@,
    {
        "Timeout cannot be greater than the max timeout"
    }
}

/// Checks the timeout of a receive: at most 7 seconds.
pub fn check_timeout(timeout: u128) -> (r: Result<(), ChannelError>)
    ensures
        r == (if timeout > MAX_TIMEOUT_NANOS { Err(ChannelError::TimeoutTooLarge) } else { Ok::<(), ChannelError>(()) }),
{
    if timeout > MAX_TIMEOUT_NANOS {
        Err(ChannelError::TimeoutTooLarge)
    } else {
        Ok(())
    }
}

/// What happened to one receive of a batch.
pub enum RecvEvent<T> {
    /// A value arrived.
    Value(T),
    /// Every sender is gone.
    Closed,
    /// The batch's deadline passed.
    TimedOut,
}

/// How a batch receive ended.
#[derive(Debug, Clone, Copy, PartialEq, Eq, Structural)]
pub enum BatchStatus {
    Completed,
    Closed,
    Timeout,
}

impl BatchStatus {
    /// The name a batch's ending is reported by.
    pub fn name(&self) -> (r: &'static str)
        ensures
            r@ == (match *self {
                BatchStatus::Completed => "completed"@,
                BatchStatus::Closed => "closed"@,
                BatchStatus::Timeout => "timeout"@,
            }),
    {
        match self {
            BatchStatus::Completed => "completed",
            BatchStatus::Closed => "closed",
            BatchStatus::Timeout => "timeout",
        }
    }
}

/// A batch receive in progress: the values received so far, toward the number expected.
pub struct Batch<T> {
    expected: usize,
    results: Vec<T>,
    status: Option<BatchStatus>,
}

impl<T> Batch<T> {
    /// The values received so far.
    pub closed spec fn received(&self) -> Seq<T> {
        self.results@
    }

    /// The number of values expected.
    pub closed spec fn expected_spec(&self) -> usize {
        self.expected
    }

    /// How the batch ended, if it has.
    pub closed spec fn status_spec(&self) -> Option<BatchStatus> {
        self.status
    }

    /// The batch is well formed: never more values than expected, and a batch that has not
    /// ended still lacks some.
    pub closed spec fn wf(&self) -> bool {
        &&& self.results@.len() <= self.expected
        &&& self.status is None ==> self.results@.len() < self.expected
        &&& self.status == Some(BatchStatus::Completed) ==> self.results@.len() == self.expected
    }

    /// A batch expecting `expected` values; one expecting none is complete at once.
    pub fn new(expected: usize) -> (r: Batch<T>)
        ensures
            r.wf(),
            r.received() == Seq::<T>::empty(),
            r.expected_spec() == expected,
            r.status_spec() == (if expected == 0 { Some(BatchStatus::Completed) } else { None }),
    {
        let status = if expected == 0 { Some(BatchStatus::Completed) } else { None };
        Batch { expected, results: Vec::new(), status }
    }

    /// Whether the batch waits for more values.
    pub fn wants_more(&self) -> (r: bool)
        ensures
            r == self.status_spec() is None,
    {
        self.status.is_none()
    }

    /// Takes in what one receive gave: a value is kept (the batch completes with the last one
    /// expected); a closed channel or a passed deadline ends the batch.
    pub fn feed(&mut self, event: RecvEvent<T>)
        requires
            old(self).wf(),
            old(self).status_spec() is None,
        ensures
            final(self).wf(),
            final(self).expected_spec() == old(self).expected_spec(),
            match event {
                RecvEvent::Value(v) => final(self).received() == old(self).received().push(v)
                    && final(self).status_spec() == (if final(self).received().len() == old(self).expected_spec() {
                        Some(BatchStatus::Completed)
                    } else {
                        None
                    }),
                RecvEvent::Closed => final(self).received() == old(self).received()
                    && final(self).status_spec() == Some(BatchStatus::Closed),
                RecvEvent::TimedOut => final(self).received() == old(self).received()
                    && final(self).status_spec() == Some(BatchStatus::Timeout),
            },
    {
        match event {
            RecvEvent::Value(v) => {
                self.results.push(v);
                if self.results.len() == self.expected {
                    self.status = Some(BatchStatus::Completed);
                }
            },
            RecvEvent::Closed => {
                self.status = Some(BatchStatus::Closed);
            },
            RecvEvent::TimedOut => {
                self.status = Some(BatchStatus::Timeout);
            },
        }
    }

    /// The values received and how the batch ended.
    pub fn finish(self) -> (r: (Vec<T>, BatchStatus))
        requires
            self.wf(),
            self.status_spec() is Some,
        ensures
            r.0@ == self.received(),
            Some(r.1) == self.status_spec(),
            r.1 == BatchStatus::Completed ==> r.0@.len() == self.expected_spec(),
            r.0@.len() <= self.expected_spec(),
    {
        let status = match self.status {
            Some(s) => s,
            None => BatchStatus::Completed,
        };
        (self.results, status)
    }
}

/// The delay the queue is given for a wanted delay: the delay, or the queue's largest.
pub open spec fn safe_delay_spec(delay: u128) -> u128 {
    if delay > MAX_QUEUE_DELAY_NANOS {
        MAX_QUEUE_DELAY_NANOS
    } else {
        delay
    }
}

/// The delay the queue is given for a wanted delay: the delay, or the queue's largest.
pub fn get_safe_delay(delay: u128) -> (r: u128)
    ensures
        r == safe_delay_spec(delay),
{
    if delay > MAX_QUEUE_DELAY_NANOS {
        MAX_QUEUE_DELAY_NANOS
    } else {
        delay
    }
}

/// A value put into the delay channel at `now` for `delay`: when it is due, and the delay the
/// queue is given for it.
pub fn schedule(now: u128, delay: u128) -> (r: (u128, u128))
    requires
        now + delay <= u128::MAX,
    ensures
        r.0 == now + delay,
        r.1 == safe_delay_spec(delay),
        r.1 <= delay,
{
    (now + delay, get_safe_delay(delay))
}

/// What to do with a value the queue hands out.
#[derive(Debug, Clone, Copy, PartialEq, Eq, Structural)]
pub enum ExpiryAction {
    /// It is due: give it to the reader.
    Deliver,
    /// It came early (its delay was cut to the queue's largest): put it back for this long.
    Reinsert(u128),
}

/// What to do at `now` with a value due at `due` that the queue handed out.
pub fn on_expired(now: u128, due: u128) -> (r: ExpiryAction)
    ensures
        r == on_expired_spec(now, due),
{
    if now < due {
        ExpiryAction::Reinsert(get_safe_delay(due - now))
    } else {
        ExpiryAction::Deliver
    }
}

/// A value is never delivered before it is due, and each reinsertion waits for part of what
/// is left, never longer than the queue takes.
pub proof fn lemma_never_early(now: u128, due: u128)
    ensures
        on_expired_spec(now, due) == ExpiryAction::Deliver ==> now >= due,
        on_expired_spec(now, due) matches ExpiryAction::Reinsert(d) ==> 0 < d <= due - now && d <= MAX_QUEUE_DELAY_NANOS,
{
}

/// What `on_expired` decides.
pub open spec fn on_expired_spec(now: u128, due: u128) -> ExpiryAction {
    if now < due {
        ExpiryAction::Reinsert(safe_delay_spec((due - now) as u128))
    } else {
        ExpiryAction::Deliver
    }
}

} // verus!
