//! The request engines of the daemon's contracts: the owner store that
//! records accounts, policy and plan lifecycles with a commit sequence, and
//! the decision loops that route each request through that store and through
//! provider effects until it has a reply.
use vstd::prelude::*;

pub mod owner;
pub mod store;
pub mod working;

verus! {

/// How many more times a decision loop may go round before it must give up.
#[derive(Clone, Copy, Debug, PartialEq, Eq, Structural)]
pub struct ContinuationBudget(u32);

impl ContinuationBudget {
    pub closed spec fn count(self) -> nat {
        self.0 as nat
    }

    /// The budget each loop starts with: ample for the deepest flow (write,
    /// effect, reply) with headroom.
    pub fn default_for_pilot() -> (budget: Self)
        ensures
            budget.count() == 32,
    {
        ContinuationBudget(32)
    }

    pub fn from_iteration_count(count: u32) -> (budget: Self)
        ensures
            budget.count() == count,
    {
        ContinuationBudget(count)
    }

    pub fn remaining(self) -> (count: u32)
        ensures
            count == self.count(),
    {
        self.0
    }

    /// The budget after one round, or `None` when nothing is left.
    pub closed spec fn spent_once(self) -> Option<Self> {
        if self.0 == 0 {
            None
        } else {
            Some(ContinuationBudget((self.0 - 1) as u32))
        }
    }

    /// The budget after `rounds` successive rounds, or `None` once one of
    /// them found nothing left.
    pub open spec fn spent_times(self, rounds: nat) -> Option<Self>
        decreases rounds,
    {
        if rounds == 0 {
            Some(self)
        } else {
            match self.spent_times((rounds - 1) as nat) {
                Some(budget) => budget.spent_once(),
                None => None,
            }
        }
    }

    /// One round spent, or `None` when nothing is left.
    pub fn spend_one(self) -> (next: Option<Self>)
        ensures
            next == self.spent_once(),
            match next {
                Some(budget) => self.count() > 0 && budget.count() == self.count() - 1,
                None => self.count() == 0,
            },
    {
        if self.0 == 0 {
            None
        } else {
            Some(ContinuationBudget(self.0 - 1))
        }
    }
}

/// Two budgets are the same exactly when they allow as many rounds.
pub proof fn budgets_equal_iff_counts_equal(left: ContinuationBudget, right: ContinuationBudget)
    ensures
        (left == right) <==> (left.count() == right.count()),
{
}

/// A budget of `n` rounds can be spent `n` times in succession, leaving
/// `n - k` after `k` of them, and the next spend finds nothing left: a loop
/// that spends one round per step stops within `n + 1` steps.
pub proof fn budget_spends_exactly_its_count(start: ContinuationBudget, rounds: nat)
    ensures
        rounds <= start.count() ==> (start.spent_times(rounds) matches Some(left) && left.count() == start.count()
            - rounds),
        rounds > start.count() ==> start.spent_times(rounds) is None,
    decreases rounds,
{
    if rounds > 0 {
        budget_spends_exactly_its_count(start, (rounds - 1) as nat);
    }
}

/// The handle that threads a request through the planes back to its caller.
#[derive(Clone, Copy, Debug, PartialEq, Eq, Structural)]
pub struct OriginRoute(pub u64);

/// A value of one plane together with the origin route of the request it
/// belongs to: the reply to a request goes back on the route it came in on.
#[derive(Debug, PartialEq, Eq)]
pub struct Routed<T> {
    pub route: OriginRoute,
    pub payload: T,
}

/// The first route a minter hands out is one past this base.
pub const ORIGIN_ROUTE_BASE: u64 = 1_000_000;

/// Mints increasing origin routes, one per admitted request.
#[derive(Debug, Default)]
pub struct OriginRouteMinter {
    next: u64,
}

impl OriginRouteMinter {
    pub closed spec fn minted(self) -> nat {
        self.next as nat
    }

    pub fn new() -> (minter: Self)
        ensures
            minter.minted() == 0,
    {
        OriginRouteMinter { next: 0 }
    }

    /// The next route: each call returns one more than the last.
    pub fn mint(&mut self) -> (route: OriginRoute)
        requires
            old(self).minted() + 1 + ORIGIN_ROUTE_BASE <= u64::MAX,
        ensures
            final(self).minted() == old(self).minted() + 1,
            route.0 == ORIGIN_ROUTE_BASE + final(self).minted(),
    {
        self.next = self.next + 1;
        OriginRoute(ORIGIN_ROUTE_BASE + self.next)
    }
}

/// Whether an actor has started and not yet stopped.
#[derive(Clone, Copy, Debug, Default, PartialEq, Eq, Structural)]
pub struct ActorLifecycle {
    started: bool,
}

impl ActorLifecycle {
    pub closed spec fn running(self) -> bool {
        self.started
    }

    pub fn new() -> (lifecycle: Self)
        ensures
            !lifecycle.running(),
    {
        ActorLifecycle { started: false }
    }

    pub fn mark_started(&mut self)
        ensures
            final(self).running(),
    {
        self.started = true;
    }

    pub fn mark_stopped(&mut self)
        ensures
            !final(self).running(),
    {
        self.started = false;
    }

    pub fn is_started(self) -> (started: bool)
        ensures
            started == self.running(),
    {
        self.started
    }
}

/// Two lifecycles are the same exactly when both are running or both are
/// not.
pub proof fn lifecycles_equal_iff_running_equal(left: ActorLifecycle, right: ActorLifecycle)
    ensures
        (left == right) <==> (left.running() == right.running()),
{
}

/// Routes are minted in increasing order, all above the base: of two routes
/// minted from one minter, the one minted later is greater.
pub proof fn later_routes_are_greater(
    earlier: OriginRoute,
    earlier_minted: OriginRouteMinter,
    later: OriginRoute,
    later_minted: OriginRouteMinter,
)
    requires
        earlier.0 == ORIGIN_ROUTE_BASE + earlier_minted.minted(),
        later.0 == ORIGIN_ROUTE_BASE + later_minted.minted(),
        earlier_minted.minted() > 0,
        earlier_minted.minted() < later_minted.minted(),
    ensures
        ORIGIN_ROUTE_BASE < earlier.0 < later.0,
{
}

} // verus!
