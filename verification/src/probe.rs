//! Readiness probing: repeatedly check a target endpoint until it answers,
//! the attempt budget is exhausted, or the supervisor is torn down.
//!
//! The probe is a step machine. The surrounding runtime performs one HTTP
//! request per attempt (bounded by the per-attempt timeout), sleeps between
//! attempts, and feeds each outcome into [`probe_step`]; the machine decides
//! whether the service is ready, the budget is spent, or another attempt is
//! due. Elapsed wall-clock time is accounted in the state so that the total
//! budget bound is a proved property, not a hope.

use vstd::arithmetic::mul::lemma_mul_inequality;
use vstd::prelude::*;

use crate::digits::dec_digits;
use crate::digits::u64_to_dec;

verus! {

/// A readiness check counts as successful on any success (2xx) or
/// redirection (3xx) status.
pub open spec fn is_ready_status_spec(code: u16) -> bool {
    200 <= code < 400
}

/// Whether an HTTP status code signals readiness.
pub fn is_ready_status(code: u16) -> (r: bool)
    ensures
        r == is_ready_status_spec(code),
{
    200 <= code && code < 400
}

/// Whether one probe attempt observed a ready service: a response arrived at
/// all, and its status was a success or redirection. A connection error or a
/// per-attempt timeout (`None`) is "not yet ready", never fatal.
pub open spec fn attempt_succeeds(response: Option<u16>) -> bool {
    response matches Some(code) && is_ready_status_spec(code)
}

/// An ASCII decimal digit.
pub open spec fn is_digit(b: u8) -> bool {
    48 <= b <= 57
}

/// The index of the first space in the line, or its length if it has none.
pub open spec fn first_space(s: Seq<u8>) -> int
    decreases s.len(),
{
    if s.len() == 0 {
        0
    } else if s[0] == 32 {
        0
    } else {
        1 + first_space(s.drop_first())
    }
}

/// `first_space` is exactly the index before which no space stands.
pub proof fn lemma_first_space_at(s: Seq<u8>, i: int)
    requires
        0 <= i <= s.len(),
        forall|j: int| 0 <= j < i ==> s[j] != 32,
        i == s.len() || s[i] == 32,
    ensures
        first_space(s) == i,
    decreases i,
{
    if i > 0 {
        let t = s.drop_first();
        assert(forall|j: int| 0 <= j < i - 1 ==> #[trigger] t[j] == s[j + 1]);
        lemma_first_space_at(t, i - 1);
    }
}

/// The status code an HTTP response's first line carries: after the first
/// space stand exactly three digits, followed by a space or the line's end.
/// Anything else is no status line.
pub open spec fn parse_status_spec(s: Seq<u8>) -> Option<u16> {
    let i = first_space(s);
    if i + 4 <= s.len() && is_digit(s[i + 1]) && is_digit(s[i + 2]) && is_digit(s[i + 3]) && (i + 4
        == s.len() || s[i + 4] == 32) {
        Some((100 * (s[i + 1] - 48) + 10 * (s[i + 2] - 48) + (s[i + 3] - 48)) as u16)
    } else {
        None
    }
}

/// Extract the status code from an HTTP response's first line, such as
/// `HTTP/1.1 200 OK`.
pub fn parse_status_line(line: &[u8]) -> (r: Option<u16>)
    ensures
        r == parse_status_spec(line@),
{
    let n: usize = line.len();
    let mut i: usize = 0;
    while i < n && line[i] != 32
        invariant
            i <= n == line@.len(),
            forall|j: int| 0 <= j < i ==> line@[j] != 32,
        decreases n - i,
    {
        i = i + 1;
    }
    proof {
        lemma_first_space_at(line@, i as int);
    }
    if n - i >= 4 {
        let d1 = line[i + 1];
        let d2 = line[i + 2];
        let d3 = line[i + 3];
        if 48 <= d1 && d1 <= 57 && 48 <= d2 && d2 <= 57 && 48 <= d3 && d3 <= 57 && (i + 4 == n
            || line[i + 4] == 32) {
            Some(100 * (d1 - 48) as u16 + 10 * (d2 - 48) as u16 + (d3 - 48) as u16)
        } else {
            None
        }
    } else {
        None
    }
}

/// The probe's budget: how many attempts, how long to wait between attempts,
/// and how long a single attempt may take.
#[derive(Clone, Copy, PartialEq, Eq, Structural, Debug)]
pub struct ProbeConfig {
    pub max_attempts: u32,
    pub interval_ms: u64,
    pub per_attempt_timeout_ms: u64,
}

impl ProbeConfig {
    /// The whole wall-clock budget the probe may consume: every attempt may
    /// cost one per-attempt timeout plus one inter-attempt wait.
    pub open spec fn budget_ms(self) -> int {
        self.max_attempts * (self.interval_ms + self.per_attempt_timeout_ms)
    }

    /// A configuration the probe can run under: at least one attempt, and a
    /// total budget that the elapsed-time counter can hold.
    pub open spec fn valid(self) -> bool {
        &&& self.max_attempts >= 1
        &&& self.budget_ms() <= u64::MAX
    }

    /// Decide `valid` at run time, so an unverified caller can test a
    /// configuration before driving the probe with it.
    pub fn check_valid(&self) -> (r: bool)
        ensures
            r == self.valid(),
    {
        proof {
            let m = self.max_attempts as int;
            let w = self.interval_ms as int + self.per_attempt_timeout_ms as int;
            assert(m * w <= u128::MAX) by (nonlinear_arith)
                requires
                    0 <= m <= u32::MAX,
                    0 <= w <= u64::MAX as int + u64::MAX as int,
            ;
        }
        let budget: u128 = (self.max_attempts as u128) * (self.interval_ms as u128
            + self.per_attempt_timeout_ms as u128);
        self.max_attempts >= 1 && budget <= u64::MAX as u128
    }
}

/// Progress of a running probe: attempts spent so far and the wall-clock
/// time accounted to them.
#[derive(Clone, Copy, PartialEq, Eq, Structural, Debug)]
pub struct ProbeState {
    pub attempts_made: u32,
    pub elapsed_ms: u64,
}

impl ProbeState {
    /// The counters stay within the configured budget.
    pub open spec fn inv(self, cfg: ProbeConfig) -> bool {
        &&& self.attempts_made <= cfg.max_attempts
        &&& self.elapsed_ms <= self.attempts_made * (cfg.interval_ms
            + cfg.per_attempt_timeout_ms)
    }

    /// A fresh probe: no attempts made, no time spent.
    pub fn start() -> (r: ProbeState)
        ensures
            r.attempts_made == 0,
            r.elapsed_ms == 0,
    {
        ProbeState { attempts_made: 0, elapsed_ms: 0 }
    }
}

/// What one probe attempt decided.
#[derive(Clone, Copy, PartialEq, Eq, Structural, Debug)]
pub enum StepVerdict {
    /// The service answered: stop probing, the service is ready.
    Ready,
    /// The final attempt failed: the budget is exhausted.
    TimedOut,
    /// Not ready yet; another attempt is due after the inter-attempt wait.
    Continue,
}

/// Advance the probe by one attempt. `response` is the status code the
/// attempt obtained (`None` on a connection error or per-attempt timeout),
/// `attempt_cost_ms` the wall-clock time the attempt itself took, which the
/// per-attempt timeout bounds. On failure the machine accounts the
/// inter-attempt wait that the runtime performs before the next attempt;
/// on success it stops at once, waiting for nothing further.
pub fn probe_step(
    cfg: &ProbeConfig,
    st: &mut ProbeState,
    response: Option<u16>,
    attempt_cost_ms: u64,
) -> (verdict: StepVerdict)
    requires
        cfg.valid(),
        old(st).inv(*cfg),
        old(st).attempts_made < cfg.max_attempts,
        attempt_cost_ms <= cfg.per_attempt_timeout_ms,
    ensures
        final(st).inv(*cfg),
        final(st).attempts_made == old(st).attempts_made + 1,
        verdict is Ready <==> attempt_succeeds(response),
        attempt_succeeds(response) ==> final(st).elapsed_ms == old(st).elapsed_ms
            + attempt_cost_ms,
        !attempt_succeeds(response) ==> final(st).elapsed_ms == old(st).elapsed_ms
            + attempt_cost_ms + cfg.interval_ms,
        verdict is TimedOut <==> (!attempt_succeeds(response) && old(st).attempts_made + 1
            == cfg.max_attempts),
        verdict is Continue <==> (!attempt_succeeds(response) && old(st).attempts_made + 1
            < cfg.max_attempts),
        verdict is TimedOut ==> final(st).elapsed_ms <= cfg.budget_ms(),
{
    proof {
        let a = old(st).attempts_made as int;
        let m = cfg.max_attempts as int;
        let w = cfg.interval_ms as int + cfg.per_attempt_timeout_ms as int;
        assert((a + 1) * w == a * w + w) by (nonlinear_arith);
        lemma_mul_inequality(a + 1, m, w);
    }
    let succeeded = match response {
        Some(code) => is_ready_status(code),
        None => false,
    };
    st.attempts_made = st.attempts_made + 1;
    if succeeded {
        st.elapsed_ms = st.elapsed_ms + attempt_cost_ms;
        StepVerdict::Ready
    } else {
        st.elapsed_ms = st.elapsed_ms + attempt_cost_ms + cfg.interval_ms;
        if st.attempts_made == cfg.max_attempts {
            StepVerdict::TimedOut
        } else {
            StepVerdict::Continue
        }
    }
}

/// If the target never answers ready, the probe consumes at most
/// `max_attempts * (interval + per_attempt_timeout)` of wall-clock time:
/// every state the step machine can reach stays within the budget.
pub proof fn lemma_probe_time_budget(cfg: ProbeConfig, st: ProbeState)
    requires
        cfg.valid(),
        st.inv(cfg),
    ensures
        st.elapsed_ms <= cfg.budget_ms(),
{
    lemma_mul_inequality(
        st.attempts_made as int,
        cfg.max_attempts as int,
        cfg.interval_ms as int + cfg.per_attempt_timeout_ms as int,
    );
}

/// Why the probe gave up: the target, the attempts spent, and the time they
/// took, so the caller can produce an actionable message.
#[derive(Clone, Copy, PartialEq, Eq, Structural, Debug)]
pub struct ProbeTimeout {
    pub port: u16,
    pub attempts: u32,
    pub elapsed_ms: u64,
}

impl ProbeTimeout {
    /// The diagnostic text: attempt count, elapsed whole seconds, and port.
    pub open spec fn message_spec(self) -> Seq<char> {
        "Server not ready after "@ + dec_digits(self.attempts as nat) + " attempts ("@
            + dec_digits((self.elapsed_ms / 1000) as nat) + "s) on port "@ + dec_digits(
            self.port as nat,
        )
    }

    /// Render the diagnostic text.
    pub fn message(&self) -> (r: String)
        ensures
            r@ == self.message_spec(),
    {
        let mut s = String::new();
        s.append("Server not ready after ");
        let attempts = u64_to_dec(self.attempts as u64);
        s.append(attempts.as_str());
        s.append(" attempts (");
        let secs = u64_to_dec(self.elapsed_ms / 1000);
        s.append(secs.as_str());
        s.append("s) on port ");
        let port = u64_to_dec(self.port as u64);
        s.append(port.as_str());
        proof {
            assert(s@ =~= self.message_spec());
        }
        s
    }
}

/// The probe's outcome: ready after some attempts, or the budget spent.
#[derive(Clone, Copy, PartialEq, Eq, Structural, Debug)]
pub enum ProbeResult {
    Ready { attempts: u32, elapsed_ms: u64 },
    Timeout(ProbeTimeout),
}

/// Run the whole probe over a given sequence of attempt outcomes, one entry
/// per potential attempt. This is the probe algorithm itself, with the
/// attempts' own durations taken as negligible: it returns Ready on the
/// first successful attempt, looking at nothing beyond it, and gives up
/// after `max_attempts` failures, having waited the inter-attempt interval
/// after every failed attempt.
pub fn run_probe(cfg: &ProbeConfig, port: u16, responses: &Vec<Option<u16>>) -> (r: ProbeResult)
    requires
        cfg.valid(),
        responses@.len() >= cfg.max_attempts,
    ensures
        (r is Ready) <==> (exists|i: int|
            0 <= i < cfg.max_attempts && attempt_succeeds(responses@[i])),
        r matches ProbeResult::Ready { attempts, elapsed_ms } ==> {
            &&& 1 <= attempts <= cfg.max_attempts
            &&& attempt_succeeds(responses@[attempts - 1])
            &&& forall|j: int| 0 <= j < attempts - 1 ==> !attempt_succeeds(responses@[j])
            &&& elapsed_ms == (attempts - 1) * cfg.interval_ms
        },
        r matches ProbeResult::Timeout(t) ==> {
            &&& forall|j: int| 0 <= j < cfg.max_attempts ==> !attempt_succeeds(responses@[j])
            &&& t.attempts == cfg.max_attempts
            &&& t.elapsed_ms == cfg.max_attempts * cfg.interval_ms
            &&& t.port == port
        },
{
    let mut st = ProbeState::start();
    let mut i: u32 = 0;
    while i < cfg.max_attempts
        invariant
            cfg.valid(),
            responses@.len() >= cfg.max_attempts,
            st.inv(*cfg),
            st.attempts_made == i,
            i <= cfg.max_attempts,
            st.elapsed_ms == i * cfg.interval_ms,
            forall|j: int| 0 <= j < i ==> !attempt_succeeds(responses@[j]),
        decreases cfg.max_attempts - i,
    {
        let response = responses[i as usize];
        let verdict = probe_step(cfg, &mut st, response, 0);
        proof {
            assert((i + 1) as int * cfg.interval_ms as int == i as int * cfg.interval_ms as int
                + cfg.interval_ms as int) by (nonlinear_arith);
        }
        if matches!(verdict, StepVerdict::Ready) {
            proof {
                assert(attempt_succeeds(responses@[i as int]));
            }
            return ProbeResult::Ready { attempts: st.attempts_made, elapsed_ms: st.elapsed_ms };
        }
        i = i + 1;
    }
    ProbeResult::Timeout(ProbeTimeout { port, attempts: i, elapsed_ms: st.elapsed_ms })
}

} // verus!
