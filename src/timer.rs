use vstd::prelude::*;

verus! {

/// Identifies one timer request; the same value comes back with the firing.
#[derive(Clone, Copy, Debug, PartialEq, Eq, Structural)]
pub struct TimerToken {
    pub id: u64,
}

impl TimerToken {
    /// Wraps a raw identifier as a token.
    pub fn new(id: u64) -> (r: TimerToken)
        ensures
            r.id == id,
    {
        TimerToken { id }
    }

    /// The raw identifier of this token.
    pub fn get_raw(&self) -> (r: u64)
        ensures
            r == self.id,
    {
        self.id
    }
}

/// The first identifier that a fresh counter hands out; zero and negative
/// values mean "no timer" in the native message encoding.
pub const FIRST_TIMER_ID: i32 = 1;

/// Issues timer identifiers in increasing order, starting at `FIRST_TIMER_ID`.
pub struct TimerIds {
    next: i32,
}

impl TimerIds {
    /// The identifier that the next call of `next_timer_id` hands out.
    pub closed spec fn next_spec(&self) -> int {
        self.next as int
    }

    pub closed spec fn wf(&self) -> bool {
        self.next >= FIRST_TIMER_ID
    }

    pub fn new() -> (r: TimerIds)
        ensures
            r.wf(),
            r.next_spec() == FIRST_TIMER_ID,
    {
        TimerIds { next: FIRST_TIMER_ID }
    }

    /// Whether a further identifier fits the native encoding.
    pub fn has_next(&self) -> (r: bool)
        ensures
            r == (self.next_spec() < i32::MAX),
    {
        self.next < i32::MAX
    }

    /// Hands out the next identifier and advances the counter by one.
    pub fn next_timer_id(&mut self) -> (r: i32)
        requires
            old(self).wf(),
            old(self).next_spec() < i32::MAX,
        ensures
            r as int == old(self).next_spec(),
            r >= FIRST_TIMER_ID,
            final(self).wf(),
            final(self).next_spec() == old(self).next_spec() + 1,
    {
        let r = self.next;
        self.next = self.next + 1;
        r
    }
}

/// The identifiers that `n` successive calls of `next_timer_id` hand out,
/// starting from a counter whose next identifier is `next`.
pub open spec fn issued_ids(next: int, n: nat) -> Seq<int>
    decreases n,
{
    if n == 0 {
        Seq::empty()
    } else {
        seq![next].add(issued_ids(next + 1, (n - 1) as nat))
    }
}

/// Identifiers handed out by successive calls are strictly increasing, so no
/// identifier is handed out twice.
pub proof fn lemma_timer_ids_increase(next: int, n: nat)
    ensures
        issued_ids(next, n).len() == n,
        forall|i: int| 0 <= i < n ==> #[trigger] issued_ids(next, n)[i] == next + i,
        forall|i: int, j: int|
            0 <= i < j < n ==> #[trigger] issued_ids(next, n)[i] < #[trigger] issued_ids(next, n)[j],
    decreases n,
{
    if n > 0 {
        lemma_timer_ids_increase(next + 1, (n - 1) as nat);
        let s = issued_ids(next, n);
        let t = issued_ids(next + 1, (n - 1) as nat);
        assert forall|i: int| 0 <= i < n implies #[trigger] s[i] == next + i by {
            if i > 0 {
                assert(s[i] == t[i - 1]);
            }
        }
    }
}

/// The delay in milliseconds from `now_ms` until `deadline_ms`; a deadline in
/// the past gives no delay.
pub open spec fn delay_spec(deadline_ms: u64, now_ms: u64) -> u64 {
    if deadline_ms > now_ms {
        (deadline_ms - now_ms) as u64
    } else {
        0
    }
}

/// Computes `max(0, deadline_ms - now_ms)`.
pub fn timer_delay(deadline_ms: u64, now_ms: u64) -> (r: u64)
    ensures
        r == delay_spec(deadline_ms, now_ms),
        r as int == if deadline_ms > now_ms { deadline_ms - now_ms } else { 0 },
{
    if deadline_ms > now_ms {
        deadline_ms - now_ms
    } else {
        0
    }
}

} // verus!
