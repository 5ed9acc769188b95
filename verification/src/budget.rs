use vstd::prelude::*;

verus! {

/// Counts the tool iterations of one agent run against a fixed maximum.
pub struct IterationBudget {
    pub max_iterations: u32,
    pub grace_call: bool,
    iterations_used: u32,
    exhausted: bool,
}

impl IterationBudget {
    /// Number of iterations recorded so far.
    pub closed spec fn used(&self) -> nat {
        self.iterations_used as nat
    }

    /// Whether the exhausted flag has been raised.
    pub closed spec fn is_exhausted(&self) -> bool {
        self.exhausted
    }

    /// The maximum number of iterations.
    pub closed spec fn max(&self) -> nat {
        self.max_iterations as nat
    }

    /// Whether a final summarising call is granted once the budget runs out.
    pub closed spec fn grace(&self) -> bool {
        self.grace_call
    }

    /// The flag is raised exactly when at least one iteration was recorded and
    /// the count has reached the maximum.
    pub open spec fn flag_matches_count(&self) -> bool {
        self.is_exhausted() <==> (self.used() >= 1 && self.used() >= self.max())
    }

    pub fn new(max_iterations: u32) -> (b: Self)
        ensures
            fresh_budget(b, max_iterations as nat),
            b.flag_matches_count(),
            b.max() == max_iterations,
            b.grace(),
            b.used() == 0,
            !b.is_exhausted(),
    {
        IterationBudget { max_iterations, grace_call: true, iterations_used: 0, exhausted: false }
    }

    /// Whether the budget grants a final summarising call.
    pub fn has_grace_call(&self) -> (r: bool)
        ensures
            r == self.grace(),
    {
        self.grace_call
    }

    /// The number of iterations recorded so far.
    pub fn iterations_used(&self) -> (r: u32)
        ensures
            r == self.used(),
    {
        self.iterations_used
    }

    pub fn exhausted(&self) -> (r: bool)
        ensures
            r == self.is_exhausted(),
    {
        self.exhausted
    }

    /// Records one iteration; the flag is raised once the count reaches the maximum.
    pub fn increment(&mut self)
        requires
            old(self).used() < u32::MAX,
        ensures
            final(self).used() == old(self).used() + 1,
            final(self).max() == old(self).max(),
            final(self).grace() == old(self).grace(),
            final(self).is_exhausted() == (old(self).is_exhausted() || final(self).used()
                >= old(self).max()),
            old(self).flag_matches_count() ==> final(self).flag_matches_count(),
            increments_to(*old(self), *final(self)),
    {
        let used = self.iterations_used + 1;
        self.iterations_used = used;
        if used >= self.max_iterations {
            self.exhausted = true;
        }
    }

    pub fn remaining(&self) -> (r: u32)
        ensures
            r == remaining_count(*self),
            r == if self.used() >= self.max() {
                0
            } else {
                self.max() - self.used()
            },
    {
        self.max_iterations.saturating_sub(self.iterations_used)
    }
}

/// A budget as `new(m)` makes it: nothing recorded, not spent.
pub open spec fn fresh_budget(b: IterationBudget, m: nat) -> bool {
    &&& b.used() == 0
    &&& !b.is_exhausted()
    &&& b.max() == m
}

/// `b` is `a` after one `increment`.
pub open spec fn increments_to(a: IterationBudget, b: IterationBudget) -> bool {
    &&& b.used() == a.used() + 1
    &&& b.max() == a.max()
    &&& b.grace() == a.grace()
    &&& b.is_exhausted() == (a.is_exhausted() || b.used() >= a.max())
}

/// What `remaining` reports: the maximum less the count, never below zero.
pub open spec fn remaining_count(b: IterationBudget) -> nat {
    if b.used() >= b.max() {
        0
    } else {
        (b.max() - b.used()) as nat
    }
}

proof fn lemma_budget_step(budgets: Seq<IterationBudget>, m: nat, k: int)
    requires
        0 <= k < budgets.len(),
        fresh_budget(budgets[0], m),
        forall|j: int| 0 <= j < budgets.len() - 1 ==> increments_to(#[trigger] budgets[j], budgets[j + 1]),
    ensures
        budgets[k].used() == k,
        budgets[k].max() == m,
        budgets[k].is_exhausted() <==> (k >= 1 && k >= m),
    decreases k,
{
    if k > 0 {
        lemma_budget_step(budgets, m, k - 1);
        assert(increments_to(budgets[k - 1], budgets[k]));
    }
}

/// A budget made by `new(m)` and then incremented `k` times: it is spent
/// exactly when `k` is at least 1 and at least `m`; `remaining` reports `m`
/// less `k`, never below zero, so it never grows and never exceeds `m`; once
/// spent it stays spent, and a spent budget has nothing remaining.
pub proof fn lemma_budget_after_increments(budgets: Seq<IterationBudget>, m: nat)
    requires
        budgets.len() > 0,
        fresh_budget(budgets[0], m),
        forall|j: int| 0 <= j < budgets.len() - 1 ==> increments_to(#[trigger] budgets[j], budgets[j + 1]),
    ensures
        forall|k: int|
            0 <= k < budgets.len() ==> {
                &&& (#[trigger] budgets[k]).used() == k
                &&& budgets[k].is_exhausted() <==> (k >= 1 && k >= m)
                &&& remaining_count(budgets[k]) == if k >= m { 0 } else { m - k }
                &&& remaining_count(budgets[k]) <= m
                &&& budgets[k].is_exhausted() ==> remaining_count(budgets[k]) == 0
            },
        forall|j: int, k: int|
            0 <= j <= k < budgets.len() ==> {
                &&& remaining_count(#[trigger] budgets[k]) <= remaining_count(#[trigger] budgets[j])
                &&& budgets[j].is_exhausted() ==> budgets[k].is_exhausted()
            },
{
    assert forall|k: int| 0 <= k < budgets.len() implies {
        &&& (#[trigger] budgets[k]).used() == k
        &&& budgets[k].is_exhausted() <==> (k >= 1 && k >= m)
        &&& remaining_count(budgets[k]) == if k >= m { 0 } else { m - k }
        &&& remaining_count(budgets[k]) <= m
        &&& budgets[k].is_exhausted() ==> remaining_count(budgets[k]) == 0
    } by {
        lemma_budget_step(budgets, m, k);
    };
    assert forall|j: int, k: int| 0 <= j <= k < budgets.len() implies {
        &&& remaining_count(#[trigger] budgets[k]) <= remaining_count(#[trigger] budgets[j])
        &&& budgets[j].is_exhausted() ==> budgets[k].is_exhausted()
    } by {
        lemma_budget_step(budgets, m, j);
        lemma_budget_step(budgets, m, k);
    };
}

} // verus!
