//! Batch planner: decides which payload sizes one period emits. The planner
//! walks the size-class table round-robin and keeps a running byte total;
//! it stops the moment adding the next class would exceed the period's byte
//! budget, and the partial batch is final. It also spreads the batch evenly
//! across the period by an intra-period delay.

use vstd::prelude::*;
use vstd::arithmetic::div_mod::{lemma_fundamental_div_mod, lemma_mod_bound};
use vstd::arithmetic::mul::lemma_mul_inequality;

verus! {

/// Safety valve of the planning walk: one period never plans more events
/// than this, whatever the budget and the table hold.
pub const PLAN_ITERATION_CAP: usize = 99_999_999;

/// Sum of a batch of payload sizes.
pub open spec fn seq_sum(s: Seq<u64>) -> int
    decreases s.len(),
{
    if s.len() == 0 {
        0
    } else {
        s[0] + seq_sum(s.drop_first())
    }
}

/// The batch the planner yields from step `i` on, with `total` bytes already
/// committed: table classes taken round-robin until the next class would
/// push the total past the budget, or the iteration cap is reached.
pub open spec fn plan_spec(byte_budget: u64, table: Seq<u64>, i: nat, total: u64) -> Seq<u64>
    recommends
        table.len() > 0,
    decreases PLAN_ITERATION_CAP - i,
{
    if table.len() == 0 || i >= PLAN_ITERATION_CAP as nat {
        Seq::empty()
    } else {
        let s = table[i as int % table.len() as int];
        if total + s > byte_budget {
            Seq::empty()
        } else {
            seq![s] + plan_spec(byte_budget, table, i + 1, (total + s) as u64)
        }
    }
}

/// Budget-respect law, over the planning walk from any step: the planned
/// sizes never push the running total past the budget, each planned size is
/// the round-robin table class of its step, and unless the iteration cap cut
/// the walk short, appending the next table class would exceed the budget.
pub proof fn lemma_plan_spec_props(byte_budget: u64, table: Seq<u64>, i: nat, total: u64)
    requires
        table.len() > 0,
        total <= byte_budget,
        i <= PLAN_ITERATION_CAP,
    ensures
        total + seq_sum(plan_spec(byte_budget, table, i, total)) <= byte_budget,
        i + plan_spec(byte_budget, table, i, total).len() <= PLAN_ITERATION_CAP,
        forall|j: int|
            0 <= j < plan_spec(byte_budget, table, i, total).len()
                ==> plan_spec(byte_budget, table, i, total)[j] == table[(i + j) % (
            table.len() as int)],
        i + plan_spec(byte_budget, table, i, total).len() < PLAN_ITERATION_CAP ==> total + seq_sum(
            plan_spec(byte_budget, table, i, total),
        ) + table[(i + plan_spec(byte_budget, table, i, total).len()) as int % (table.len() as int)]
            > byte_budget,
    decreases PLAN_ITERATION_CAP - i,
{
    let plan = plan_spec(byte_budget, table, i, total);
    if i < PLAN_ITERATION_CAP as nat {
        let s = table[i as int % table.len() as int];
        if total + s <= byte_budget {
            let rest = plan_spec(byte_budget, table, i + 1, (total + s) as u64);
            lemma_plan_spec_props(byte_budget, table, i + 1, (total + s) as u64);
            assert(plan == seq![s] + rest);
            assert(plan.drop_first() =~= rest);
            assert forall|j: int| 0 <= j < plan.len() implies plan[j] == table[(i + j) % (
                table.len() as int)] by {
                if j > 0 {
                    assert(rest[j - 1] == table[(i + 1 + (j - 1)) % (table.len() as int)]);
                }
            }
        }
    }
}

/// Plans one period's batch: payload sizes drawn round-robin from
/// `size_classes`, stopping as soon as the next class would push the byte
/// total past `byte_budget`. A batch that is empty because even the first
/// class exceeds the budget is a valid outcome.
pub fn plan_batch(byte_budget: u64, size_classes: &Vec<u64>) -> (r: Vec<u64>)
    requires
        size_classes@.len() > 0,
    ensures
        r@ == plan_spec(byte_budget, size_classes@, 0, 0),
        seq_sum(r@) <= byte_budget,
        forall|j: int|
            0 <= j < r@.len() ==> r@[j] == size_classes@[j % (size_classes@.len() as int)],
        r@.len() < PLAN_ITERATION_CAP ==> seq_sum(r@) + size_classes@[(r@.len() as int) % (
        size_classes@.len() as int)] > byte_budget,
{
    let ghost table = size_classes@;
    let n_classes = size_classes.len();
    let mut result: Vec<u64> = Vec::new();
    let mut total: u64 = 0;
    let mut i: usize = 0;
    while i < PLAN_ITERATION_CAP
        invariant_except_break
            table == size_classes@,
            n_classes == table.len(),
            n_classes > 0,
            i <= PLAN_ITERATION_CAP,
            result@.len() == i,
            total <= byte_budget,
            total == seq_sum(result@),
            plan_spec(byte_budget, table, 0, 0) == result@ + plan_spec(
                byte_budget,
                table,
                i as nat,
                total,
            ),
        ensures
            table == size_classes@,
            result@ == plan_spec(byte_budget, table, 0, 0),
        decreases PLAN_ITERATION_CAP - i,
    {
        let s = size_classes[i % n_classes];
        proof {
            lemma_mod_bound(i as int, n_classes as int);
        }
        if s > byte_budget - total {
            proof {
                assert(plan_spec(byte_budget, table, i as nat, total) =~= Seq::empty());
                assert(result@ + Seq::<u64>::empty() =~= result@);
            }
            break ;
        }
        proof {
            let rest = plan_spec(byte_budget, table, i as nat, total);
            assert(rest == seq![s] + plan_spec(
                byte_budget,
                table,
                (i + 1) as nat,
                (total + s) as u64,
            ));
            assert(result@ + rest =~= result@.push(s) + plan_spec(
                byte_budget,
                table,
                (i + 1) as nat,
                (total + s) as u64,
            ));
            assert(seq_sum(result@.push(s)) == total + s) by {
                lemma_seq_sum_push(result@, s);
            }
        }
        total = total + s;
        result.push(s);
        i = i + 1;
    }
    proof {
        if i >= PLAN_ITERATION_CAP {
            assert(plan_spec(byte_budget, table, i as nat, total) =~= Seq::empty());
            assert(result@ + Seq::<u64>::empty() =~= result@);
        }
        lemma_plan_spec_props(byte_budget, table, 0, 0);
    }
    result
}

proof fn lemma_seq_sum_push(s: Seq<u64>, v: u64)
    ensures
        seq_sum(s.push(v)) == seq_sum(s) + v,
    decreases s.len(),
{
    if s.len() == 0 {
        assert(s.push(v) =~= seq![v]);
        assert(seq_sum(seq![v].drop_first()) == 0);
    } else {
        assert(s.push(v).drop_first() =~= s.drop_first().push(v));
        lemma_seq_sum_push(s.drop_first(), v);
    }
}

/// The intra-period delay: the period duration divided evenly across the
/// planned count; a period with nothing planned needs no schedule.
pub fn intra_period_delay_micros(period_micros: u64, count: usize) -> (r: u64)
    ensures
        count == 0 ==> r == 0,
        count > 0 ==> r == period_micros as int / count as int,
{
    if count == 0 {
        0
    } else {
        period_micros / (count as u64)
    }
}

/// Says whether a period's emission overran its nominal duration. An
/// overrun is surfaced to the caller for logging only: the next period then
/// starts immediately, and nothing is corrected or retried.
pub fn period_overrun(elapsed_micros: u64, period_micros: u64) -> (r: bool)
    ensures
        r == (elapsed_micros > period_micros),
{
    elapsed_micros > period_micros
}

/// One period's emission schedule: the planned payload sizes and the even
/// delay that spreads them across the period.
pub struct PeriodPlan {
    pub sizes: Vec<u64>,
    pub delay_micros: u64,
    pub period_micros: u64,
}

impl PeriodPlan {
    pub open spec fn wf(self) -> bool {
        &&& self.sizes@.len() == 0 ==> self.delay_micros == 0
        &&& self.sizes@.len() > 0 ==> self.delay_micros == self.period_micros as int / (
        self.sizes@.len() as int)
    }

    /// Plans a period: the batch for the byte budget, spread evenly over the
    /// period duration.
    pub fn new(byte_budget: u64, size_classes: &Vec<u64>, period_micros: u64) -> (r: PeriodPlan)
        requires
            size_classes@.len() > 0,
        ensures
            r.wf(),
            r.period_micros == period_micros,
            r.sizes@ == plan_spec(byte_budget, size_classes@, 0, 0),
            seq_sum(r.sizes@) <= byte_budget,
            forall|j: int|
                0 <= j < r.sizes@.len() ==> r.sizes@[j] == size_classes@[j % (
                size_classes@.len() as int)],
            r.sizes@.len() < PLAN_ITERATION_CAP ==> seq_sum(r.sizes@)
                + size_classes@[(r.sizes@.len() as int) % (size_classes@.len() as int)]
                > byte_budget,
    {
        let sizes = plan_batch(byte_budget, size_classes);
        let delay_micros = intra_period_delay_micros(period_micros, sizes.len());
        PeriodPlan { sizes, delay_micros, period_micros }
    }

    /// The scheduled offset of the `i`-th planned event inside its period:
    /// `i` times the even delay, which never leaves the period.
    pub fn offset_micros(&self, i: usize) -> (r: u64)
        requires
            self.wf(),
            i < self.sizes@.len(),
        ensures
            r == i * self.delay_micros,
            r <= self.period_micros,
    {
        proof {
            let n = self.sizes@.len() as int;
            let d = self.delay_micros as int;
            let p = self.period_micros as int;
            lemma_mul_inequality(i as int, n, d);
            lemma_fundamental_div_mod(p, n);
            lemma_mod_bound(p, n);
        }
        (i as u64) * self.delay_micros
    }
}

} // verus!
