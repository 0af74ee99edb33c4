//! The retrying request executor as a state machine: the caller performs
//! each request and each pause, and hands every reply to `RetryState::step`,
//! which decides what happens next.
use crate::policy::{backoff, BASE_BACKOFF_MILLIS, backoff_delay_millis, clamp_millis, is_status_retryable, retryable};
use vstd::arithmetic::power2::{lemma_pow2_strictly_increases, pow2};
use vstd::prelude::*;

verus! {

/// What one attempt of a request produced.
#[derive(Clone, Copy, Debug, PartialEq, Eq)]
pub enum Reply {
    /// A response arrived with this HTTP status.
    Status(u16),
    /// The request failed below HTTP: connection refused, DNS, framing.
    TransportFailure,
}

/// What the executor does with a reply.
#[derive(Clone, Copy, Debug, PartialEq, Eq)]
pub enum RetryStep {
    /// Pause this many milliseconds, then send the request again.
    Wait(u64),
    /// Hand the response to the decoders as it is.
    Deliver,
    /// Surface the transport failure to the caller.
    Fail,
}

/// The state of one logical request: how many retries it has made.
#[derive(Clone, Copy, Debug, PartialEq, Eq)]
pub struct RetryState {
    pub attempts: usize,
}

/// How a whole run of replies ends.
#[derive(Clone, Copy, Debug, PartialEq, Eq)]
pub enum RunOutcome {
    /// The reply at this index was delivered; as many pauses preceded it.
    Delivered(usize),
    /// The reply at this index was a transport failure, surfaced at once.
    Failed(usize),
    /// Every reply asked for another attempt and none was left.
    Exhausted,
}

/// Whether a reply leads to a retry at this point of the run.
pub open spec fn retries_on(attempts: nat, reply: Reply, max_retries: nat) -> bool {
    match reply {
        Reply::Status(s) => attempts < max_retries && retryable(s),
        Reply::TransportFailure => false,
    }
}

/// The decision taken on `reply` after `attempts` retries.
pub open spec fn step_of(attempts: nat, reply: Reply, max_retries: nat) -> RetryStep {
    match reply {
        Reply::TransportFailure => RetryStep::Fail,
        Reply::Status(_) => if retries_on(attempts, reply, max_retries) {
            RetryStep::Wait(clamp_millis(backoff(attempts)) as u64)
        } else {
            RetryStep::Deliver
        },
    }
}

/// How the executor ends when the transport answers `replies[i..]` in turn,
/// `i` retries having been made before.
pub open spec fn run_of(replies: Seq<Reply>, max_retries: nat, i: nat) -> RunOutcome
    decreases replies.len() - i,
{
    if i >= replies.len() {
        RunOutcome::Exhausted
    } else {
        match step_of(i, replies[i as int], max_retries) {
            RetryStep::Wait(_) => run_of(replies, max_retries, i + 1),
            RetryStep::Deliver => RunOutcome::Delivered(i as usize),
            RetryStep::Fail => RunOutcome::Failed(i as usize),
        }
    }
}

/// The pauses that the first `n` retries take, in order.
pub open spec fn pauses(n: nat) -> Seq<u64> {
    Seq::new(n, |k: int| clamp_millis(backoff(k as nat)) as u64)
}

impl RetryState {
    /// The state before the first attempt.
    pub fn new() -> (s: RetryState)
        ensures
            s.attempts == 0,
    {
        RetryState { attempts: 0 }
    }

    /// Decides what follows `reply`, and the state after it.
    pub fn step(&self, reply: Reply, max_retries: usize) -> (r: (RetryStep, RetryState))
        ensures
            r.0 == step_of(self.attempts as nat, reply, max_retries as nat),
            r.1.attempts == if retries_on(self.attempts as nat, reply, max_retries as nat) {
                self.attempts + 1
            } else {
                self.attempts as int
            },
    {
        match reply {
            Reply::TransportFailure => (RetryStep::Fail, *self),
            Reply::Status(status) => {
                if self.attempts < max_retries && is_status_retryable(status as i32) {
                    let wait = backoff_delay_millis(self.attempts);
                    (RetryStep::Wait(wait), RetryState { attempts: self.attempts + 1 })
                } else {
                    (RetryStep::Deliver, *self)
                }
            },
        }
    }
}

/// Runs the executor against a transport that answers with `replies` in
/// turn, and returns how it ends with the pauses it took.
pub fn run_retries(replies: &Vec<Reply>, max_retries: usize) -> (r: (RunOutcome, Vec<u64>))
    ensures
        r.0 == run_of(replies@, max_retries as nat, 0),
        r.1@ == pauses(
            match r.0 {
                RunOutcome::Delivered(k) => k as nat,
                RunOutcome::Failed(k) => k as nat,
                RunOutcome::Exhausted => replies@.len(),
            },
        ),
{
    let mut state = RetryState::new();
    let mut waits: Vec<u64> = Vec::new();
    while state.attempts < replies.len()
        invariant
            state.attempts <= replies@.len(),
            run_of(replies@, max_retries as nat, state.attempts as nat) == run_of(
                replies@,
                max_retries as nat,
                0,
            ),
            waits@ == pauses(state.attempts as nat),
        decreases replies@.len() - state.attempts,
    {
        let i = state.attempts;
        let (action, next) = state.step(replies[i], max_retries);
        match action {
            RetryStep::Wait(ms) => {
                waits.push(ms);
                state = next;
                assert(waits@ =~= pauses(state.attempts as nat));
            },
            RetryStep::Deliver => {
                return (RunOutcome::Delivered(i), waits);
            },
            RetryStep::Fail => {
                return (RunOutcome::Failed(i), waits);
            },
        }
    }
    (RunOutcome::Exhausted, waits)
}

/// A retryable status seen before the retries are used up leads to exactly
/// one pause, of the backoff for this attempt, and one more attempt; any
/// other status is delivered at once, whatever the attempt count.
pub proof fn lemma_retry_decision(attempts: nat, status: u16, max_retries: nat)
    ensures
        retryable(status) && attempts < max_retries ==> step_of(
            attempts,
            Reply::Status(status),
            max_retries,
        ) == RetryStep::Wait(clamp_millis(backoff(attempts)) as u64),
        !retryable(status) ==> step_of(attempts, Reply::Status(status), max_retries)
            == RetryStep::Deliver,
        attempts >= max_retries ==> step_of(attempts, Reply::Status(status), max_retries)
            == RetryStep::Deliver,
{
}

/// After `max_retries` retryable responses in a row, the next one is
/// delivered as it is, after `max_retries` pauses (see `run_retries`): the
/// executor never retries past its bound.
pub proof fn lemma_retries_are_bounded(replies: Seq<Reply>, max_retries: nat)
    requires
        replies.len() > max_retries,
        forall|k: int| 0 <= k < replies.len() ==> (#[trigger] replies[k] matches Reply::Status(s)
            && retryable(s)),
    ensures
        run_of(replies, max_retries, 0) == RunOutcome::Delivered(max_retries as usize),
{
    lemma_retryable_run_from(replies, max_retries, 0);
}

proof fn lemma_retryable_run_from(replies: Seq<Reply>, max_retries: nat, i: nat)
    requires
        i <= max_retries,
        replies.len() > max_retries,
        forall|k: int| 0 <= k < replies.len() ==> (#[trigger] replies[k] matches Reply::Status(s)
            && retryable(s)),
    ensures
        run_of(replies, max_retries, i) == RunOutcome::Delivered(max_retries as usize),
    decreases max_retries - i,
{
    assert(replies[i as int] matches Reply::Status(s) && retryable(s));
    if i < max_retries {
        lemma_retryable_run_from(replies, max_retries, i + 1);
    }
}

/// A transport failure on the first attempt is surfaced at once, with no
/// retry consumed and no pause taken.
pub proof fn lemma_transport_failure_is_immediate(replies: Seq<Reply>, max_retries: nat)
    requires
        replies.len() > 0,
        replies[0] == Reply::TransportFailure,
    ensures
        run_of(replies, max_retries, 0) == RunOutcome::Failed(0),
{
}

/// The pauses of a run double exactly from the base delay: pause `i` is the
/// base delay times two to the `i`, for runs whose last pause fits in
/// milliseconds.
pub proof fn lemma_pauses_double(n: nat)
    requires
        n > 0 ==> backoff((n - 1) as nat) <= u64::MAX,
    ensures
        forall|i: int| 0 <= i < n ==> #[trigger] pauses(n)[i] == BASE_BACKOFF_MILLIS * pow2(i as nat),
{
    assert forall|i: int| 0 <= i < n implies #[trigger] pauses(n)[i] == BASE_BACKOFF_MILLIS * pow2(i as nat) by {
        if i < n - 1 {
            lemma_pow2_strictly_increases(i as nat, (n - 1) as nat);
        }
        let a = pow2(i as nat);
        let b = pow2((n - 1) as nat);
        assert(a <= b ==> BASE_BACKOFF_MILLIS * a <= BASE_BACKOFF_MILLIS * b) by (nonlinear_arith);
    }
}

} // verus!
