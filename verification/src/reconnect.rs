//! When to connect again after a session has ended, and when to give up.

use vstd::arithmetic::power2::{lemma2_to64, lemma_pow2_strictly_increases, lemma_pow2_unfold, pow2};
use vstd::prelude::*;

verus! {

/// The pause after the first session that ended, in milliseconds.
pub const MIN_BACKOFF: u64 = 10;

/// The longest pause, in milliseconds.
pub const MAX_BACKOFF: u64 = 2000;

/// How long a session has to last for the pauses to start over, in nanoseconds.
pub const STABLE_AFTER: u128 = 5_000_000_000;

/// How many sessions in a row may end before a pause of the longest kind.
pub const MAX_INTERVAL_RETRIES: u32 = 10;

/// How long the next pause is, and how many of the longest kind there were.
pub struct Reconnect {
    backoff: u64,
    max_interval_retries: u32,
}

/// What to do after a session has ended.
pub enum ReconnectAction {
    /// Wait this many milliseconds, and connect again.
    Sleep(u64),
    /// Give up.
    GiveUp,
}

/// What `Reconnect` stands for.
pub struct ReconnectView {
    pub backoff: int,
    pub retries: int,
}

impl View for Reconnect {
    type V = ReconnectView;

    closed spec fn view(&self) -> ReconnectView {
        ReconnectView {
            backoff: self.backoff as int,
            retries: self.max_interval_retries as int,
        }
    }
}

impl ReconnectView {
    /// Before the first session.
    pub open spec fn initial() -> ReconnectView {
        ReconnectView { backoff: MIN_BACKOFF as int, retries: 0 }
    }

    /// The pauses and their number are within their limits.
    pub open spec fn well_formed(self) -> bool {
        &&& MIN_BACKOFF <= self.backoff <= MAX_BACKOFF
        &&& 0 <= self.retries < MAX_INTERVAL_RETRIES
    }

    /// What counts after a session of `elapsed` nanoseconds: all that was before is forgotten
    /// where it lasted.
    pub open spec fn settled(self, elapsed: int) -> ReconnectView {
        if elapsed > STABLE_AFTER {
            ReconnectView::initial()
        } else {
            self
        }
    }

    /// How often the longest pause has been reached once the next one is counted.
    pub open spec fn counted(self) -> int {
        if self.backoff == MAX_BACKOFF {
            self.retries + 1
        } else {
            self.retries
        }
    }

    /// Whether it is time to give up after a session of `elapsed` nanoseconds.
    pub open spec fn gives_up(self, elapsed: int) -> bool {
        self.settled(elapsed).counted() >= MAX_INTERVAL_RETRIES
    }

    /// The pause after a session of `elapsed` nanoseconds.
    pub open spec fn pause(self, elapsed: int) -> int {
        self.settled(elapsed).backoff
    }

    /// What counts after that pause: the next one is twice as long, up to the longest.
    pub open spec fn next(self, elapsed: int) -> ReconnectView {
        let settled = self.settled(elapsed);
        ReconnectView {
            backoff: if 2 * settled.backoff < MAX_BACKOFF {
                2 * settled.backoff
            } else {
                MAX_BACKOFF as int
            },
            retries: settled.counted(),
        }
    }

    /// How many sessions there have been since the last one that lasted, that one included.
    pub open spec fn unsettled(sessions: Seq<int>) -> nat
        decreases sessions.len(),
    {
        if sessions.len() == 0 {
            0
        } else if sessions.last() > STABLE_AFTER {
            1
        } else {
            ReconnectView::unsettled(sessions.drop_last()) + 1
        }
    }

    /// What counts after sessions that lasted `sessions` nanoseconds and the pauses after them.
    pub open spec fn after(sessions: Seq<int>) -> ReconnectView
        decreases sessions.len(),
    {
        if sessions.len() == 0 {
            ReconnectView::initial()
        } else {
            ReconnectView::after(sessions.drop_last()).next(sessions.last())
        }
    }
}

impl Reconnect {
    #[verifier::type_invariant]
    spec fn within_limits(self) -> bool {
        self@.well_formed()
    }

    /// Before the first session.
    pub fn new() -> (result: Self)
        ensures
            result@ == ReconnectView::initial(),
    {
        Reconnect { backoff: MIN_BACKOFF, max_interval_retries: 0 }
    }
}

/// Says what to do after a session that lasted `elapsed` nanoseconds.
pub fn run_subscriber(state: &mut Reconnect, elapsed: u128) -> (result: ReconnectAction)
    ensures
        old(state)@.well_formed(),
        old(state)@.gives_up(elapsed as int) ==> result == ReconnectAction::GiveUp && final(state)@
            == old(state)@.settled(elapsed as int),
        !old(state)@.gives_up(elapsed as int) ==> {
            &&& result == ReconnectAction::Sleep(old(state)@.pause(elapsed as int) as u64)
            &&& final(state)@ == old(state)@.next(elapsed as int)
        },
{
    proof {
        use_type_invariant(&*state);
    }
    if elapsed > STABLE_AFTER {
        *state = Reconnect::new();
    }
    let backoff: u64 = state.backoff;
    let mut retries: u32 = state.max_interval_retries;
    proof {
        use_type_invariant(&*state);
    }
    if backoff == MAX_BACKOFF {
        retries = retries + 1;
        if retries >= MAX_INTERVAL_RETRIES {
            return ReconnectAction::GiveUp;
        }
    }
    let longer: u64 = if 2 * backoff < MAX_BACKOFF {
        2 * backoff
    } else {
        MAX_BACKOFF
    };
    *state = Reconnect { backoff: longer, max_interval_retries: retries };
    ReconnectAction::Sleep(backoff)
}

/// A session that lasted is never the last one, and the pause after it is the shortest.
pub proof fn law_lasting_session_starts_over(state: ReconnectView, elapsed: int)
    requires
        elapsed > STABLE_AFTER,
    ensures
        !state.gives_up(elapsed),
        state.pause(elapsed) == MIN_BACKOFF,
{
}

/// Every pause is between the shortest and the longest.
pub proof fn law_pause_is_bounded(state: ReconnectView, elapsed: int)
    requires
        state.well_formed(),
    ensures
        MIN_BACKOFF <= state.pause(elapsed) <= MAX_BACKOFF,
        !state.gives_up(elapsed) ==> state.next(elapsed).well_formed(),
{
}

/// The pauses double from the shortest one on until they reach the longest, and start over with
/// each session that lasted. A session that ended early is the last one where seventeen have
/// come since the one that lasted, that one included, or since the start.
pub proof fn law_backoff_schedule(sessions: Seq<int>, elapsed: int)
    requires
        elapsed <= STABLE_AFTER,
    ensures
        ({
            let state = ReconnectView::after(sessions);
            let n = ReconnectView::unsettled(sessions);
            let doubled = MIN_BACKOFF * pow2(n);
            &&& state.pause(elapsed) == if doubled < MAX_BACKOFF {
                doubled
            } else {
                MAX_BACKOFF as int
            }
            &&& state.retries == if n < 8 {
                0
            } else {
                n - 8
            }
            &&& state.gives_up(elapsed) <==> n >= 17
        }),
    decreases sessions.len(),
{
    lemma2_to64();
    let n = ReconnectView::unsettled(sessions);
    if sessions.len() > 0 {
        let early = sessions.drop_last();
        let last = sessions.last();
        if last <= STABLE_AFTER {
            law_backoff_schedule(early, last);
        }
        lemma_pow2_unfold(n);
        if n > 9 {
            lemma_pow2_strictly_increases(8, (n - 1) as nat);
        }
        if n < 8 {
            lemma_pow2_strictly_increases(n, 8);
        }
    }
}

/// Sessions that all end early from the start on: the eighteenth is the last one, and none before
/// it is. After a session that lasted, the seventeenth that ends early is.
pub proof fn law_early_sessions_end(sessions: Seq<int>, early: Seq<int>, elapsed: int)
    requires
        forall|i: int| 0 <= i < early.len() ==> early[i] <= STABLE_AFTER,
        sessions.len() > 0 ==> sessions.last() > STABLE_AFTER,
        elapsed <= STABLE_AFTER,
    ensures
        sessions.len() == 0 ==> (ReconnectView::after(sessions + early).gives_up(elapsed)
            <==> early.len() >= 17),
        sessions.len() > 0 ==> (ReconnectView::after(sessions + early).gives_up(elapsed)
            <==> early.len() >= 16),
{
    lemma_unsettled_since(sessions, early);
    law_backoff_schedule(sessions + early, elapsed);
}

/// Sessions that ended early are counted from the one that lasted on.
proof fn lemma_unsettled_since(sessions: Seq<int>, early: Seq<int>)
    requires
        forall|i: int| 0 <= i < early.len() ==> early[i] <= STABLE_AFTER,
        sessions.len() > 0 ==> sessions.last() > STABLE_AFTER,
    ensures
        ReconnectView::unsettled(sessions + early) == early.len() + if sessions.len() == 0 {
            0int
        } else {
            1
        },
    decreases early.len(),
{
    if early.len() == 0 {
        assert(sessions + early =~= sessions);
    } else {
        lemma_unsettled_since(sessions, early.drop_last());
        assert((sessions + early).drop_last() =~= sessions + early.drop_last());
    }
}

} // verus!
