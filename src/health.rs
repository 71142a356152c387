use vstd::prelude::*;

verus! {

/// How many times readiness is polled before giving up.
pub const MAX_ATTEMPTS: u32 = 15;

/// The pause before each poll.
pub const POLL_INTERVAL_MS: u64 = 500;

/// How long a single poll may take.
pub const PROBE_TIMEOUT_MS: u64 = 500;

/// Relies on `reqwest::StatusCode::from_u16`, which accepts exactly the codes
/// from 100 to 999, and `StatusCode::is_success`, which holds for 200 to 299.
#[verifier::external_body]
fn status_is_success(code: u16) -> (r: bool)
    ensures
        r == (200 <= code && code < 300),
{
    match reqwest::StatusCode::from_u16(code) {
        Ok(status) => status.is_success(),
        Err(_) => false,
    }
}

/// A poll succeeded: the endpoint answered with a success-class status.
/// `None` stands for a request that got no answer at all.
pub open spec fn answered_ok(response: Option<u16>) -> bool {
    response matches Some(code) && 200 <= code && code < 300
}

/// Whether a poll's response counts as ready.
pub fn is_ready_response(response: Option<u16>) -> (r: bool)
    ensures
        r == answered_ok(response),
{
    match response {
        Some(code) => status_is_success(code),
        None => false,
    }
}

/// The progress of one readiness wait: how many polls were made and whether
/// the last of them succeeded.
pub struct HealthCheck {
    attempts: u32,
    ready: bool,
}

impl View for HealthCheck {
    type V = (nat, bool);

    closed spec fn view(&self) -> (nat, bool) {
        (self.attempts as nat, self.ready)
    }
}

/// The wait is over once a poll succeeded or every attempt was used.
pub open spec fn finished(s: (nat, bool)) -> bool {
    s.1 || s.0 >= MAX_ATTEMPTS
}

/// One more poll, unless the wait is already over.
pub open spec fn after_response(s: (nat, bool), response: Option<u16>) -> (nat, bool) {
    if finished(s) {
        s
    } else {
        (s.0 + 1, answered_ok(response))
    }
}

/// The state after feeding the responses in order to a fresh wait.
pub open spec fn run(responses: Seq<Option<u16>>) -> (nat, bool)
    decreases responses.len(),
{
    if responses.len() == 0 {
        (0, false)
    } else {
        after_response(run(responses.drop_last()), responses.last())
    }
}

impl HealthCheck {
    pub fn new() -> (r: HealthCheck)
        ensures
            r@ == (0nat, false),
    {
        HealthCheck { attempts: 0, ready: false }
    }

    pub fn is_finished(&self) -> (r: bool)
        ensures
            r == finished(self@),
    {
        self.ready || self.attempts >= MAX_ATTEMPTS
    }

    pub fn is_ready(&self) -> (r: bool)
        ensures
            r == self@.1,
    {
        self.ready
    }

    pub fn attempts(&self) -> (r: u32)
        ensures
            r == self@.0,
    {
        self.attempts
    }

    /// Time spent pausing between polls so far.
    pub fn elapsed_ms(&self) -> (r: u64)
        ensures
            r == self@.0 * POLL_INTERVAL_MS,
    {
        self.attempts as u64 * POLL_INTERVAL_MS
    }

    /// Records the response to the poll that followed a pause.
    pub fn record(&mut self, response: Option<u16>)
        ensures
            final(self)@ == after_response(old(self)@, response),
    {
        if !self.is_finished() {
            self.attempts = self.attempts + 1;
            self.ready = is_ready_response(response);
        }
    }
}

proof fn lemma_run_failing_prefix(responses: Seq<Option<u16>>, j: nat)
    requires
        j <= responses.len(),
        j <= MAX_ATTEMPTS,
        forall|i: int| 0 <= i < j ==> !answered_ok(#[trigger] responses[i]),
    ensures
        run(responses.take(j as int)) == (j, false),
    decreases j,
{
    if j > 0 {
        lemma_run_failing_prefix(responses, (j - 1) as nat);
        assert(responses.take(j as int).drop_last() =~= responses.take(j - 1));
    }
}

/// An endpoint that first answers successfully at poll `k` (at most the
/// allowed number of attempts) makes the wait end ready after exactly `k`
/// polls, so after `k` pauses; before that the wait was still going on, and
/// what the endpoint would answer later is never asked.
pub proof fn lemma_ready_at_first_success(responses: Seq<Option<u16>>, k: nat)
    requires
        1 <= k <= MAX_ATTEMPTS,
        k <= responses.len(),
        answered_ok(responses[k - 1]),
        forall|i: int| 0 <= i < k - 1 ==> !answered_ok(#[trigger] responses[i]),
    ensures
        run(responses.take(k as int)) == (k, true),
        run(responses.take(k as int)).0 * POLL_INTERVAL_MS == k * 500,
        forall|j: nat| j < k ==> !finished(#[trigger] run(responses.take(j as int))),
        forall|j: nat| k <= j <= responses.len() ==> #[trigger] run(responses.take(j as int)) == (k, true),
{
    lemma_run_failing_prefix(responses, (k - 1) as nat);
    assert(responses.take(k as int).drop_last() =~= responses.take(k - 1));
    assert forall|j: nat| j < k implies !finished(#[trigger] run(responses.take(j as int))) by {
        lemma_run_failing_prefix(responses, j);
    }
    assert forall|j: nat| k <= j <= responses.len() implies #[trigger] run(responses.take(j as int)) == (k, true) by {
        lemma_run_stays_finished(responses, k, j);
    }
}

proof fn lemma_run_stays_finished(responses: Seq<Option<u16>>, k: nat, j: nat)
    requires
        k <= j <= responses.len(),
        finished(run(responses.take(k as int))),
    ensures
        run(responses.take(j as int)) == run(responses.take(k as int)),
    decreases j - k,
{
    if j > k {
        lemma_run_stays_finished(responses, k, (j - 1) as nat);
        assert(responses.take(j as int).drop_last() =~= responses.take(j - 1));
    }
}

/// An endpoint that never answers successfully makes the wait end not
/// ready after exactly the allowed number of polls, 15 pauses of 500 ms;
/// before that the wait was still going on.
pub proof fn lemma_gives_up_after_all_attempts(responses: Seq<Option<u16>>)
    requires
        MAX_ATTEMPTS <= responses.len(),
        forall|i: int| 0 <= i < responses.len() ==> !answered_ok(#[trigger] responses[i]),
    ensures
        run(responses.take(MAX_ATTEMPTS as int)) == (15nat, false),
        finished(run(responses.take(MAX_ATTEMPTS as int))),
        run(responses.take(MAX_ATTEMPTS as int)).0 * POLL_INTERVAL_MS == 7500,
        forall|j: nat| j < MAX_ATTEMPTS ==> !finished(#[trigger] run(responses.take(j as int))),
        run(responses) == (15nat, false),
{
    lemma_run_failing_prefix(responses, MAX_ATTEMPTS as nat);
    assert forall|j: nat| j < MAX_ATTEMPTS implies !finished(#[trigger] run(responses.take(j as int))) by {
        lemma_run_failing_prefix(responses, j);
    }
    lemma_run_stays_finished(responses, MAX_ATTEMPTS as nat, responses.len());
    assert(responses.take(responses.len() as int) =~= responses);
}

} // verus!
