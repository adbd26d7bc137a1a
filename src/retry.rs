//! The caller-managed buffer protocol of `GetAdaptersAddresses`: start with a buffer
//! of a commonly sufficient size; when the call reports overflow, grow the buffer to
//! the size that it reported and try again, a bounded number of times.
use vstd::prelude::*;

verus! {

/// `ERROR_SUCCESS`: the enumeration filled the buffer.
pub const ERROR_SUCCESS: u32 = 0;

/// `ERROR_BUFFER_OVERFLOW`: the buffer was too small; the required size was reported.
pub const ERROR_BUFFER_OVERFLOW: u32 = 111;

/// The size of the first buffer, in bytes.
pub const INITIAL_BUFFER_SIZE: u32 = 15000;

/// The number of calls after which the protocol gives up.
pub const MAX_ATTEMPTS: u32 = 3;

/// Why the protocol failed.
#[derive(Clone, Copy, Debug, PartialEq, Eq, Structural)]
pub enum RetryError {
    /// The call failed with this code, which is neither success nor overflow.
    Os(u32),
    /// Every one of the `MAX_ATTEMPTS` calls reported overflow.
    TooManyAttempts,
}

/// What the caller does after a call.
#[derive(Clone, Copy, Debug, PartialEq, Eq, Structural)]
pub enum Step {
    /// The buffer holds the whole collection.
    Done,
    /// Call again with a buffer of `buffer_size` bytes.
    Retry,
    /// Give up with this error.
    Fail(RetryError),
}

/// The protocol's state: the size of the buffer for the next call, and the
/// number of calls made so far.
#[derive(Clone, Copy, Debug)]
pub struct BufferRetry {
    pub buffer_size: u32,
    pub attempts: u32,
}

impl BufferRetry {
    /// Another call may be made.
    pub open spec fn can_attempt(self) -> bool {
        self.attempts < MAX_ATTEMPTS
    }

    /// The state before the first call.
    pub open spec fn initial() -> BufferRetry {
        BufferRetry { buffer_size: INITIAL_BUFFER_SIZE, attempts: 0 }
    }

    /// The next state and the step, after a call that returned `code` and reported
    /// `required` bytes. Once `MAX_ATTEMPTS` calls were made the protocol only fails.
    pub open spec fn next(self, code: u32, required: u32) -> (BufferRetry, Step) {
        let attempts = (self.attempts + 1) as u32;
        if !self.can_attempt() {
            (self, Step::Fail(RetryError::TooManyAttempts))
        } else if code == ERROR_SUCCESS {
            (BufferRetry { buffer_size: self.buffer_size, attempts }, Step::Done)
        } else if code == ERROR_BUFFER_OVERFLOW {
            if attempts < MAX_ATTEMPTS {
                (BufferRetry { buffer_size: required, attempts }, Step::Retry)
            } else {
                (BufferRetry { buffer_size: self.buffer_size, attempts }, Step::Fail(RetryError::TooManyAttempts))
            }
        } else {
            (BufferRetry { buffer_size: self.buffer_size, attempts }, Step::Fail(RetryError::Os(code)))
        }
    }

    /// Starts the protocol with a buffer of `INITIAL_BUFFER_SIZE` bytes.
    pub fn new() -> (r: BufferRetry)
        ensures
            r == BufferRetry::initial(),
    {
        BufferRetry { buffer_size: INITIAL_BUFFER_SIZE, attempts: 0 }
    }

    /// Records the outcome of a call with a buffer of `buffer_size` bytes: `code` is
    /// what the call returned and `required` the size that it wrote back.
    pub fn on_result(&mut self, code: u32, required: u32) -> (r: Step)
        ensures
            (*final(self), r) == old(self).next(code, required),
            r == Step::Retry ==> final(self).can_attempt(),
    {
        if self.attempts >= MAX_ATTEMPTS {
            return Step::Fail(RetryError::TooManyAttempts);
        }
        let attempts = self.attempts + 1;
        if code == ERROR_SUCCESS {
            self.attempts = attempts;
            Step::Done
        } else if code == ERROR_BUFFER_OVERFLOW {
            self.attempts = attempts;
            if attempts < MAX_ATTEMPTS {
                self.buffer_size = required;
                Step::Retry
            } else {
                Step::Fail(RetryError::TooManyAttempts)
            }
        } else {
            self.attempts = attempts;
            Step::Fail(RetryError::Os(code))
        }
    }
}

/// A call that overflows once and then succeeds: the protocol retries once with the
/// reported size and is done after exactly two calls.
pub proof fn lemma_overflow_once_then_success(required: u32, reported_after: u32)
    ensures
        ({
            let (s1, a1) = BufferRetry::initial().next(ERROR_BUFFER_OVERFLOW, required);
            let (s2, a2) = s1.next(ERROR_SUCCESS, reported_after);
            &&& a1 == Step::Retry
            &&& s1.buffer_size == required
            &&& a2 == Step::Done
            &&& s2.attempts == 2
            &&& s2.buffer_size == required
        }),
{
}

/// A call that always overflows: the protocol gives up after `MAX_ATTEMPTS` calls,
/// whatever sizes are reported.
pub proof fn lemma_always_overflow_gives_up(r1: u32, r2: u32, r3: u32)
    ensures
        ({
            let (s1, a1) = BufferRetry::initial().next(ERROR_BUFFER_OVERFLOW, r1);
            let (s2, a2) = s1.next(ERROR_BUFFER_OVERFLOW, r2);
            let (s3, a3) = s2.next(ERROR_BUFFER_OVERFLOW, r3);
            &&& a1 == Step::Retry
            &&& a2 == Step::Retry
            &&& a3 == Step::Fail(RetryError::TooManyAttempts)
            &&& s3.attempts == MAX_ATTEMPTS
        }),
{
}

/// Every call counts one attempt and a retry is offered only while fewer than
/// `MAX_ATTEMPTS` calls were made, so no run makes more than `MAX_ATTEMPTS` calls.
pub proof fn lemma_attempts_bounded(s: BufferRetry, code: u32, required: u32)
    requires
        s.can_attempt(),
    ensures
        s.next(code, required).0.attempts == s.attempts + 1,
        s.next(code, required).1 == Step::Retry ==> s.next(code, required).0.can_attempt(),
        s.next(code, required).1 != Step::Retry ==> s.next(code, required).0.attempts <= MAX_ATTEMPTS,
{
}

} // verus!
