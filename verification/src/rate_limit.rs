use vstd::prelude::*;
use vstd::hash_map::StringHashMap;

verus! {

/// How many requests a client may make within one window.
pub const MAX_REQUESTS: usize = 10;

/// The length of the window: 60 seconds, in nanoseconds.
pub const WINDOW: u64 = 60_000_000_000;

/// Whether a request made at `t` still counts at `now`: less than a window
/// has passed since it (no time has passed where `t` is later than `now`).
pub open spec fn in_window(now: u64, t: u64) -> bool {
    (if now >= t { now - t } else { 0 }) < WINDOW
}

/// The requests of `times` that still count at `now`, in their order.
pub open spec fn keep_recent(times: Seq<u64>, now: u64) -> Seq<u64>
    decreases times.len(),
{
    if times.len() == 0 {
        times
    } else {
        let kept = keep_recent(times.drop_last(), now);
        if in_window(now, times.last()) { kept.push(times.last()) } else { kept }
    }
}

/// One decision of the limiter for a client whose recorded requests are
/// `recorded`, at `now`: the requests recorded afterwards, and whether the
/// request is admitted. The requests out of the window are forgotten; the
/// request is admitted where fewer than `MAX_REQUESTS` remain, and then
/// recorded.
pub open spec fn limiter_step(recorded: Seq<u64>, now: u64) -> (Seq<u64>, bool) {
    let kept = keep_recent(recorded, now);
    if kept.len() < MAX_REQUESTS { (kept.push(now), true) } else { (kept, false) }
}

/// The requests recorded for `client`.
pub open spec fn recorded_for(requests: Map<Seq<char>, Seq<u64>>, client: Seq<char>) -> Seq<u64> {
    if requests.contains_key(client) { requests[client] } else { Seq::empty() }
}

/// What the `X-Forwarded-For` header of a request holds.
pub enum ForwardedFor {
    Absent,
    /// The header, as visible ASCII text.
    Text(String),
    /// The header is present but is not visible ASCII.
    Unreadable,
}

/// The key under which a client is counted where nothing identifies it.
pub const UNKNOWN_CLIENT: &'static str = "unknown";

/// The key under which the requests of a client are counted: the
/// `X-Forwarded-For` header where it is readable, `"unknown"` where it is
/// not; without the header, the peer address, else `"unknown"`.
pub open spec fn client_key_of(forwarded: ForwardedFor, peer: Option<String>) -> Seq<char> {
    match forwarded {
        ForwardedFor::Text(header) => header@,
        ForwardedFor::Unreadable => UNKNOWN_CLIENT@,
        ForwardedFor::Absent => match peer {
            Some(ip) => ip@,
            None => UNKNOWN_CLIENT@,
        },
    }
}

/// The key under which the requests of a client are counted; `peer` is the
/// address of the connection, where the server knows it.
pub fn client_key(forwarded: ForwardedFor, peer: Option<String>) -> (key: String)
    ensures
        key@ == client_key_of(forwarded, peer),
{
    match forwarded {
        ForwardedFor::Text(header) => header,
        ForwardedFor::Unreadable => String::from_str(UNKNOWN_CLIENT),
        ForwardedFor::Absent => match peer {
            Some(ip) => ip,
            None => String::from_str(UNKNOWN_CLIENT),
        },
    }
}

/// The JSON body of the answer to a refused request.
pub const TOO_MANY_REQUESTS_BODY: &'static str = "{\"error\":\"Too many requests\"}";

/// Whether the limiter admits a request.
pub enum RateDecision {
    Allow,
    Reject,
}

/// A per-client sliding-window limiter: at most `MAX_REQUESTS` requests per
/// client within any `WINDOW`.
pub struct RateLimiter {
    requests: StringHashMap<Vec<u64>>,
}

impl View for RateLimiter {
    type V = Map<Seq<char>, Seq<u64>>;

    /// The recorded request times of each client.
    closed spec fn view(&self) -> Map<Seq<char>, Seq<u64>> {
        self.requests@.map_values(|v: Vec<u64>| v@)
    }
}

/// The requests of `times` that still count at `now`.
fn keep_recent_exec(times: &Vec<u64>, now: u64) -> (r: Vec<u64>)
    ensures
        r@ == keep_recent(times@, now),
{
    let mut kept: Vec<u64> = Vec::new();
    let n = times.len();
    assert(times@.take(0) =~= Seq::<u64>::empty());
    for i in 0..n
        invariant
            n == times@.len(),
            kept@ == keep_recent(times@.take(i as int), now),
    {
        let t = times[i];
        assert(times@.take(i + 1).drop_last() =~= times@.take(i as int));
        let age = if now >= t { now - t } else { 0 };
        if age < WINDOW {
            kept.push(t);
        }
    }
    assert(times@.take(n as int) =~= times@);
    kept
}

impl RateLimiter {
    /// A limiter that has recorded no request.
    pub fn new() -> (r: RateLimiter)
        ensures
            r@ == Map::<Seq<char>, Seq<u64>>::empty(),
    {
        let r = RateLimiter { requests: StringHashMap::new() };
        assert(r@ =~= Map::<Seq<char>, Seq<u64>>::empty());
        r
    }

    /// Decide on a request from `client` made at `now` (nanoseconds on a
    /// monotonic clock), and record it where it is admitted.
    pub fn check(&mut self, client: &str, now: u64) -> (d: RateDecision)
        ensures
            ({
                let (after, admitted) = limiter_step(recorded_for(old(self)@, client@), now);
                &&& (d is Allow) == admitted
                &&& final(self)@ == old(self)@.insert(client@, after)
            }),
    {
        let kept = match self.requests.get(client) {
            Some(v) => keep_recent_exec(v, now),
            None => Vec::new(),
        };
        assert(kept@ == keep_recent(recorded_for(old(self)@, client@), now));
        let mut kept = kept;
        let admitted = kept.len() < MAX_REQUESTS;
        if admitted {
            kept.push(now);
        }
        let ghost after = kept@;
        self.requests.insert(String::from_str(client), kept);
        assert(self@ =~= old(self)@.insert(client@, after));
        if admitted { RateDecision::Allow } else { RateDecision::Reject }
    }
}

/// Whether the times are in the order a monotonic clock gives them.
pub open spec fn nondecreasing(times: Seq<u64>) -> bool {
    forall|i: int, j: int| 0 <= i <= j < times.len() ==> times[i] <= times[j]
}

/// What the limiter has recorded for a client after its first `n` requests,
/// made at `times`.
pub open spec fn recorded_after(times: Seq<u64>, n: nat) -> Seq<u64>
    decreases n,
{
    if n == 0 {
        Seq::empty()
    } else {
        limiter_step(recorded_after(times, (n - 1) as nat), times[n - 1]).0
    }
}

/// Whether the request made at `times[j]` is admitted.
pub open spec fn admitted_at(times: Seq<u64>, j: nat) -> bool {
    limiter_step(recorded_after(times, j), times[j as int]).1
}

/// How many of the first `n` requests were admitted and still count at `now`.
pub open spec fn admitted_within(times: Seq<u64>, n: nat, now: u64) -> nat
    decreases n,
{
    if n == 0 {
        0
    } else {
        admitted_within(times, (n - 1) as nat, now)
            + if admitted_at(times, (n - 1) as nat) && in_window(now, times[n - 1]) { 1nat } else { 0nat }
    }
}

proof fn lemma_keep_recent_push(s: Seq<u64>, x: u64, now: u64)
    ensures
        keep_recent(s.push(x), now) == if in_window(now, x) {
            keep_recent(s, now).push(x)
        } else {
            keep_recent(s, now)
        },
{
    assert(s.push(x).drop_last() =~= s);
}

proof fn lemma_keep_recent_bounded(s: Seq<u64>, now: u64, bound: u64)
    requires
        forall|k: int| 0 <= k < s.len() ==> s[k] <= bound,
    ensures
        forall|k: int| 0 <= k < keep_recent(s, now).len() ==> keep_recent(s, now)[k] <= bound,
    decreases s.len(),
{
    if s.len() > 0 {
        let rest = s.drop_last();
        assert(forall|k: int| 0 <= k < rest.len() ==> rest[k] == s[k]);
        lemma_keep_recent_bounded(rest, now, bound);
        let kept = keep_recent(rest, now);
        assert(s.last() <= bound);
        if in_window(now, s.last()) {
            assert(forall|k: int| 0 <= k < kept.len() ==> kept.push(s.last())[k] == kept[k]);
        }
    }
}

proof fn lemma_keep_recent_twice(s: Seq<u64>, a: u64, b: u64)
    requires
        forall|k: int| 0 <= k < s.len() ==> s[k] <= a,
        a <= b,
    ensures
        keep_recent(keep_recent(s, a), b) == keep_recent(s, b),
    decreases s.len(),
{
    if s.len() > 0 {
        let rest = s.drop_last();
        let x = s.last();
        lemma_keep_recent_twice(rest, a, b);
        assert(rest.push(x) =~= s);
        let kept = keep_recent(rest, a);
        if in_window(a, x) {
            lemma_keep_recent_push(kept, x, b);
        }
    }
}

proof fn lemma_recorded_matches_admitted(times: Seq<u64>, n: nat)
    requires
        nondecreasing(times),
        n <= times.len(),
    ensures
        n > 0 ==> forall|k: int| 0 <= k < recorded_after(times, n).len()
            ==> recorded_after(times, n)[k] <= times[n - 1],
        forall|now: u64| (n == 0 || now >= times[n - 1])
            ==> #[trigger] keep_recent(recorded_after(times, n), now).len() == admitted_within(times, n, now),
    decreases n,
{
    if n > 0 {
        let m = (n - 1) as nat;
        lemma_recorded_matches_admitted(times, m);
        let rec = recorded_after(times, m);
        let t = times[m as int];
        if m > 0 {
            assert(times[m - 1] <= t);
        }
        assert(forall|k: int| 0 <= k < rec.len() ==> rec[k] <= t);
        lemma_keep_recent_bounded(rec, t, t);
        let kept = keep_recent(rec, t);
        assert forall|now: u64| now >= t implies #[trigger] keep_recent(recorded_after(times, n), now).len()
            == admitted_within(times, n, now) by {
            lemma_keep_recent_twice(rec, t, now);
            if kept.len() < MAX_REQUESTS {
                lemma_keep_recent_push(kept, t, now);
            }
        }
    }
}

/// Sliding window: of the requests a client makes in clock order, at most
/// `MAX_REQUESTS` are admitted within any `WINDOW` that ends at an admitted
/// request.
pub proof fn lemma_at_most_max_requests_per_window(times: Seq<u64>, i: nat)
    requires
        nondecreasing(times),
        i < times.len(),
        admitted_at(times, i),
    ensures
        admitted_within(times, i + 1, times[i as int]) <= MAX_REQUESTS,
{
    lemma_recorded_matches_admitted(times, i);
    let t = times[i as int];
    if i > 0 {
        assert(times[i - 1] <= t);
    }
    assert(keep_recent(recorded_after(times, i), t).len() == admitted_within(times, i, t));
}

/// How many of the first `n` requests were admitted and made at or after
/// `from` and before `until`.
pub open spec fn admitted_in_interval(times: Seq<u64>, n: nat, from: u64, until: u64) -> nat
    decreases n,
{
    if n == 0 {
        0
    } else {
        admitted_in_interval(times, (n - 1) as nat, from, until)
            + if admitted_at(times, (n - 1) as nat) && from <= times[n - 1] && times[n - 1] < until {
            1nat
        } else {
            0nat
        }
    }
}

proof fn lemma_interval_counted_in_window(times: Seq<u64>, n: nat, from: u64, until: u64, now: u64)
    requires
        n <= times.len(),
        now < from + WINDOW,
    ensures
        admitted_in_interval(times, n, from, until) <= admitted_within(times, n, now),
    decreases n,
{
    if n > 0 {
        lemma_interval_counted_in_window(times, (n - 1) as nat, from, until, now);
    }
}

/// Sliding window, for any interval: of the requests a client makes in clock
/// order, at most `MAX_REQUESTS` made within any interval no longer than
/// `WINDOW` are admitted; every other request in it is refused.
pub proof fn lemma_at_most_max_requests_in_any_interval(times: Seq<u64>, from: u64, until: u64, n: nat)
    requires
        nondecreasing(times),
        n <= times.len(),
        until <= from + WINDOW,
    ensures
        admitted_in_interval(times, n, from, until) <= MAX_REQUESTS,
    decreases n,
{
    if n > 0 {
        let last = (n - 1) as nat;
        let t = times[last as int];
        if admitted_at(times, last) && from <= t && t < until {
            lemma_at_most_max_requests_per_window(times, last);
            lemma_interval_counted_in_window(times, n, from, until, t);
        } else {
            lemma_at_most_max_requests_in_any_interval(times, from, until, last);
        }
    }
}

} // verus!
