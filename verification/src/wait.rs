//! Explicit-wait polling policy.
//!
//! A wait repeatedly probes the browser for an element, at a fixed poll
//! cadence, and gives up once the elapsed time reaches the timeout.  The
//! decision of what to do after each probe is `wait_step`; `run_wait`
//! drives the whole policy over a trace of probe outcomes and is the
//! ground truth for the bound: a wait against an element that never
//! appears gives up no later than one poll interval past the timeout.

use vstd::prelude::*;

verus! {

/// Default timeout for element waits, in milliseconds.
pub const DEFAULT_TIMEOUT_MS: u64 = 10000;

/// Default poll cadence for element waits, in milliseconds.
pub const DEFAULT_POLL_MS: u64 = 500;

/// Configuration of one explicit wait: how long to keep polling, and how
/// long to pause between probes.
#[derive(Clone, Copy, Debug, PartialEq, Eq, Structural)]
pub struct WaitQuery {
    pub timeout_ms: u64,
    pub poll_ms: u64,
}

impl WaitQuery {
    /// A query is well formed when the poll interval is positive, does not
    /// exceed the timeout, and the two can be added without overflow.
    pub open spec fn wf(self) -> bool {
        &&& 0 < self.poll_ms
        &&& self.poll_ms <= self.timeout_ms
        &&& self.timeout_ms + self.poll_ms <= u64::MAX
    }

    pub fn new(timeout_ms: u64, poll_ms: u64) -> (q: WaitQuery)
        requires
            0 < poll_ms <= timeout_ms,
            timeout_ms + poll_ms <= u64::MAX,
        ensures
            q.timeout_ms == timeout_ms,
            q.poll_ms == poll_ms,
            q.wf(),
    {
        WaitQuery { timeout_ms, poll_ms }
    }

    /// The standard query every page operation uses: 10 s timeout, 500 ms poll.
    pub fn standard() -> (q: WaitQuery)
        ensures
            q.timeout_ms == DEFAULT_TIMEOUT_MS,
            q.poll_ms == DEFAULT_POLL_MS,
            q.wf(),
    {
        WaitQuery { timeout_ms: DEFAULT_TIMEOUT_MS, poll_ms: DEFAULT_POLL_MS }
    }
}

/// What the policy does after one probe of the browser.
#[derive(Clone, Copy, Debug, PartialEq, Eq, Structural)]
pub enum WaitDecision {
    /// The element resolved: stop with success.
    Found,
    /// The element did not resolve and the timeout is exhausted: stop with failure.
    GiveUp,
    /// The element did not resolve but time remains: pause one poll interval and retry.
    PollAgain,
}

/// The decision after a probe made at `elapsed_ms` since the wait began,
/// where `present` says whether the element resolved.
pub fn wait_step(q: &WaitQuery, elapsed_ms: u64, present: bool) -> (d: WaitDecision)
    ensures
        present ==> d == WaitDecision::Found,
        !present && elapsed_ms >= q.timeout_ms ==> d == WaitDecision::GiveUp,
        !present && elapsed_ms < q.timeout_ms ==> d == WaitDecision::PollAgain,
{
    if present {
        WaitDecision::Found
    } else if elapsed_ms >= q.timeout_ms {
        WaitDecision::GiveUp
    } else {
        WaitDecision::PollAgain
    }
}

/// Outcome of a whole wait.
#[derive(Clone, Copy, Debug, PartialEq, Eq, Structural)]
pub enum WaitResult {
    /// The element resolved at probe number `attempt`, `elapsed_ms` after the start.
    Resolved { attempt: u64, elapsed_ms: u64 },
    /// No probe resolved the element; the wait gave up `elapsed_ms` after the start.
    TimedOut { elapsed_ms: u64 },
}

/// Whether the element was present at probe number `k` of the trace; past
/// the end of the trace the element counts as absent.
pub open spec fn probe_at(probes: Seq<bool>, k: int) -> bool {
    0 <= k < probes.len() && probes[k]
}

/// True when the element never shows up at any probe the policy makes:
/// probe `k` happens exactly when the previous probe, at `(k-1) * poll`,
/// was still before the timeout.
pub open spec fn never_appears_within(q: WaitQuery, probes: Seq<bool>) -> bool {
    forall|k: int| 0 <= k && (k - 1) * q.poll_ms < q.timeout_ms ==> !probe_at(probes, k)
}

/// Runs the wait policy over a trace of probe outcomes: probe `k` of the
/// trace is what the browser would answer at `k * poll` milliseconds.
///
/// The wait never runs forever: it either resolves at the first probe that
/// finds the element, or times out at the first probe made at or past the
/// timeout — strictly less than one poll interval past the timeout.
pub fn run_wait(q: &WaitQuery, probes: &Vec<bool>) -> (r: WaitResult)
    requires
        q.wf(),
    ensures
        r matches WaitResult::TimedOut { elapsed_ms } ==> {
            &&& q.timeout_ms <= elapsed_ms < q.timeout_ms + q.poll_ms
            &&& elapsed_ms % q.poll_ms == 0
            &&& elapsed_ms == giveup_elapsed(*q)
            &&& never_appears_within(*q, probes@)
        },
        r matches WaitResult::Resolved { attempt, elapsed_ms } ==> {
            &&& probe_at(probes@, attempt as int)
            &&& forall|k: int| 0 <= k < attempt ==> !probe_at(probes@, k)
            &&& elapsed_ms == attempt * q.poll_ms
            &&& elapsed_ms < q.timeout_ms + q.poll_ms
        },
        r is TimedOut <==> never_appears_within(*q, probes@),
{
    let mut attempt: u64 = 0;
    let mut elapsed: u64 = 0;
    loop
        invariant
            q.wf(),
            elapsed == attempt * q.poll_ms,
            attempt > 0 ==> (attempt - 1) * q.poll_ms < q.timeout_ms,
            elapsed < q.timeout_ms + q.poll_ms,
            forall|k: int| 0 <= k < attempt ==> !probe_at(probes@, k),
        decreases q.timeout_ms + q.poll_ms - elapsed,
    {
        let present = probe_value(probes, attempt);
        match wait_step(q, elapsed, present) {
            WaitDecision::Found => {
                return WaitResult::Resolved { attempt, elapsed_ms: elapsed };
            }
            WaitDecision::GiveUp => {
                proof {
                    assert(elapsed % q.poll_ms == 0) by (nonlinear_arith)
                        requires elapsed == attempt * q.poll_ms && q.poll_ms > 0;
                    lemma_wait_gives_up_within_one_poll(*q, elapsed);
                    assert forall|k: int| 0 <= k && (k - 1) * q.poll_ms < q.timeout_ms
                        implies !probe_at(probes@, k) by {
                        if k > attempt {
                            assert((k - 1) * q.poll_ms >= attempt * q.poll_ms) by (nonlinear_arith)
                                requires k - 1 >= attempt && q.poll_ms >= 0;
                        }
                    }
                }
                return WaitResult::TimedOut { elapsed_ms: elapsed };
            }
            WaitDecision::PollAgain => {
                proof {
                    assert(attempt <= attempt * q.poll_ms) by (nonlinear_arith)
                        requires q.poll_ms >= 1 && attempt >= 0;
                    assert((attempt + 1) * q.poll_ms == attempt * q.poll_ms + q.poll_ms)
                        by (nonlinear_arith);
                }
                elapsed = elapsed + q.poll_ms;
                attempt = attempt + 1;
            }
        }
    }
}

/// The instant at which the policy gives up on a never-appearing
/// element: the first poll instant at or past the timeout.
pub open spec fn giveup_elapsed(q: WaitQuery) -> int {
    ((q.timeout_ms + q.poll_ms - 1) / (q.poll_ms as int)) * q.poll_ms
}

/// Law: for every timeout and every positive poll interval at most the
/// timeout, a wait whose element never appears gives up at one definite
/// instant — the only poll instant in the window from the timeout to one
/// poll interval past it — so it fails no later than the timeout plus
/// one poll interval and never runs indefinitely.  `run_wait`'s contract
/// places every timed-out wait inside that window, at a multiple of the
/// poll interval, which this law shows is exactly `giveup_elapsed`.
pub proof fn lemma_wait_gives_up_within_one_poll(q: WaitQuery, elapsed_ms: u64)
    requires
        q.wf(),
        q.timeout_ms <= elapsed_ms < q.timeout_ms + q.poll_ms,
        elapsed_ms % q.poll_ms == 0,
    ensures
        elapsed_ms == giveup_elapsed(q),
        q.timeout_ms <= giveup_elapsed(q) <= q.timeout_ms + q.poll_ms,
{
    let t = q.timeout_ms as int;
    let p = q.poll_ms as int;
    let x = t + p - 1;
    vstd::arithmetic::div_mod::lemma_fundamental_div_mod(x, p);
    let g = (x / p) * p;
    assert(g == x - x % p);
    assert(t <= g < t + p);
    let e = elapsed_ms as int;
    vstd::arithmetic::div_mod::lemma_fundamental_div_mod(e, p);
    assert(e == p * (e / p));
    let a = e / p;
    let b = x / p;
    assert(a == b) by (nonlinear_arith)
        requires
            p >= 1,
            t <= p * a < t + p,
            t <= p * b < t + p,
    ;
}

/// The probe trace's answer at probe number `attempt`.
fn probe_value(probes: &Vec<bool>, attempt: u64) -> (b: bool)
    ensures
        b == probe_at(probes@, attempt as int),
{
    if attempt < probes.len() as u64 {
        probes[attempt as usize]
    } else {
        false
    }
}

} // verus!
