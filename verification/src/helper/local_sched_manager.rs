use crate::helper::{first_min_index, is_first_min, span_total, sum_spans, BuildError};
use crate::time::{span_saturating_sub, Span, MAX_NANOS};
use vstd::prelude::*;

verus! {

struct Item<C> {
    pub local_sched: C,
    pub deadline: Span,
}

/// The local schedulers of a worker, each with its time budget.
pub struct LocalSchedManager<C> {
    list: Vec<Item<C>>,
    pub deadline_sum: Span,
}

impl<C> LocalSchedManager<C> {
    /// The schedulers, in the order they were inserted.
    pub closed spec fn controllers(self) -> Seq<C> {
        self.list@.map_values(|it: Item<C>| it.local_sched)
    }

    /// Their time budgets, in the same order.
    pub closed spec fn deadlines(self) -> Seq<Span> {
        self.list@.map_values(|it: Item<C>| it.deadline)
    }

    /// The sum of the budgets.
    pub closed spec fn deadline_total(self) -> Span {
        self.deadline_sum
    }

    pub fn builder() -> (r: Builder<C>)
        ensures
            r.controllers().len() == 0,
            r.deadlines().len() == 0,
    {
        Builder { list: Vec::new() }
    }

    /// The sum of the budgets, as the public field holds it.
    pub fn deadline_sum(&self) -> (r: Span)
        ensures
            r == self.deadline_total(),
    {
        self.deadline_sum
    }

    pub fn num_items(&self) -> (r: usize)
        ensures
            r == self.controllers().len(),
    {
        self.list.len()
    }

    /// The scheduler with the least time in use: `used_times[i]` is the time
    /// in use of the `i`-th scheduler.  Ties go to the one inserted first.
    pub fn shortest(&mut self, used_times: &Vec<Span>) -> (r: &mut C)
        requires
            old(self).controllers().len() > 0,
            used_times.len() == old(self).controllers().len(),
        ensures
            exists|i: int|
                #![trigger is_first_min(used_times@, i)]
                is_first_min(used_times@, i) && *r == old(self).controllers()[i]
                    && final(self).controllers() == old(self).controllers().update(i, *final(r)),
            final(self).deadlines() == old(self).deadlines(),
            final(self).deadline_total() == old(self).deadline_total(),
    {
        let i = first_min_index(used_times);
        &mut self.list[i].local_sched
    }

    /// The scheduler with the least pending time: `pending[i]` is that of
    /// the `i`-th scheduler.  Ties go to the one inserted first.
    pub fn shortest_pending(&mut self, pending: &Vec<Span>) -> (r: &mut C)
        requires
            old(self).controllers().len() > 0,
            pending.len() == old(self).controllers().len(),
        ensures
            exists|i: int|
                #![trigger is_first_min(pending@, i)]
                is_first_min(pending@, i) && *r == old(self).controllers()[i]
                    && final(self).controllers() == old(self).controllers().update(i, *final(r)),
            final(self).deadlines() == old(self).deadlines(),
            final(self).deadline_total() == old(self).deadline_total(),
    {
        let i = first_min_index(pending);
        &mut self.list[i].local_sched
    }

    /// The scheduler with the least queuing time: `queuing[i]` is that of
    /// the `i`-th scheduler.  Ties go to the one inserted first.
    pub fn shortest_queuing(&mut self, queuing: &Vec<Span>) -> (r: &mut C)
        requires
            old(self).controllers().len() > 0,
            queuing.len() == old(self).controllers().len(),
        ensures
            exists|i: int|
                #![trigger is_first_min(queuing@, i)]
                is_first_min(queuing@, i) && *r == old(self).controllers()[i]
                    && final(self).controllers() == old(self).controllers().update(i, *final(r)),
            final(self).deadlines() == old(self).deadlines(),
            final(self).deadline_total() == old(self).deadline_total(),
    {
        let i = first_min_index(queuing);
        &mut self.list[i].local_sched
    }

    /// The budget left over: the sum of the budgets less the time in use,
    /// or zero where more is in use than budgeted.
    pub fn capacity_sum(&self, used_times: &Vec<Span>) -> (r: Span)
        requires
            used_times.len() == self.controllers().len(),
            span_total(used_times@) <= MAX_NANOS,
        ensures
            r@ == span_saturating_sub(self.deadline_total()@, span_total(used_times@)),
    {
        let used_sum = self.used_sum(used_times);
        self.deadline_sum.saturating_sub(used_sum)
    }

    /// The time in use over all schedulers: `used_times[i]` is that of the
    /// `i`-th scheduler.
    pub fn used_sum(&self, used_times: &Vec<Span>) -> (r: Span)
        requires
            used_times.len() == self.controllers().len(),
            span_total(used_times@) <= MAX_NANOS,
        ensures
            r@ == span_total(used_times@),
    {
        sum_spans(used_times)
    }
}

impl<C> Default for LocalSchedManager<C> {
    /// A manager of no schedulers, with no budget.
    fn default() -> (r: Self)
        ensures
            r.controllers().len() == 0,
            r.deadlines().len() == 0,
            r.deadline_total()@ == 0,
    {
        LocalSchedManager { list: Vec::new(), deadline_sum: Span::zero() }
    }
}

impl<C> Default for Builder<C> {
    fn default() -> (r: Self)
        ensures
            r.controllers().len() == 0,
            r.deadlines().len() == 0,
    {
        Builder { list: Vec::new() }
    }
}

/// Collects schedulers before a manager is built.
pub struct Builder<C> {
    list: Vec<Item<C>>,
}

impl<C> Builder<C> {
    pub closed spec fn controllers(self) -> Seq<C> {
        self.list@.map_values(|it: Item<C>| it.local_sched)
    }

    pub closed spec fn deadlines(self) -> Seq<Span> {
        self.list@.map_values(|it: Item<C>| it.deadline)
    }

    /// Adds a scheduler with its time budget at the end.
    pub fn insert(&mut self, local_sched_controller: C, deadline: Span)
        ensures
            final(self).controllers() == old(self).controllers().push(local_sched_controller),
            final(self).deadlines() == old(self).deadlines().push(deadline),
    {
        self.list.push(Item { local_sched: local_sched_controller, deadline });
        proof {
            assert(self.controllers() =~= old(self).controllers().push(local_sched_controller));
            assert(self.deadlines() =~= old(self).deadlines().push(deadline));
        }
    }

    /// The manager of the schedulers inserted so far, whose budget is the
    /// sum of theirs; an error where none was inserted.
    pub fn build(self) -> (r: Result<LocalSchedManager<C>, BuildError>)
        requires
            span_total(self.deadlines()) <= MAX_NANOS,
        ensures
            r is Err <==> self.controllers().len() == 0,
            r matches Ok(m) ==> m.controllers() == self.controllers() && m.deadlines()
                == self.deadlines() && m.deadline_total()@ == span_total(self.deadlines()),
    {
        if self.list.len() == 0 {
            return Err(BuildError::NoController);
        }
        let mut deadlines: Vec<Span> = Vec::new();
        let mut k: usize = 0;
        while k < self.list.len()
            invariant
                k <= self.list.len(),
                deadlines@ == self.deadlines().take(k as int),
            decreases self.list.len() - k,
        {
            deadlines.push(self.list[k].deadline);
            proof {
                assert(deadlines@ =~= self.deadlines().take(k + 1));
            }
            k = k + 1;
        }
        assert(deadlines@ =~= self.deadlines());
        let deadline_sum = sum_spans(&deadlines);
        Ok(LocalSchedManager { list: self.list, deadline_sum })
    }
}

/// Whenever the time in use stays within the budget, the capacity left and
/// the time in use add up to the budget; otherwise no capacity is left.
pub proof fn lemma_capacity_and_use_make_up_budget<C>(m: LocalSchedManager<C>, used_times: Seq<Span>)
    ensures
        span_total(used_times) <= m.deadline_total()@ ==> span_saturating_sub(
            m.deadline_total()@,
            span_total(used_times),
        ) + span_total(used_times) == m.deadline_total()@,
        span_total(used_times) > m.deadline_total()@ ==> span_saturating_sub(
            m.deadline_total()@,
            span_total(used_times),
        ) == 0,
{
}

/// The schedulers of a sequence of inserts, in order.
pub open spec fn inserted_controllers<C>(items: Seq<(C, Span)>) -> Seq<C> {
    items.map_values(|x: (C, Span)| x.0)
}

/// The budgets of a sequence of inserts, in order.
pub open spec fn inserted_deadlines<C>(items: Seq<(C, Span)>) -> Seq<Span> {
    items.map_values(|x: (C, Span)| x.1)
}

/// A fresh builder holds what no inserts made, and each insert adds its
/// scheduler and budget at the end: after the inserts `items`, a builder
/// holds `inserted_controllers(items)` and `inserted_deadlines(items)`.
pub proof fn lemma_inserts_accumulate<C>(items: Seq<(C, Span)>, c: C, d: Span)
    ensures
        inserted_controllers(Seq::<(C, Span)>::empty()) == Seq::<C>::empty(),
        inserted_deadlines(Seq::<(C, Span)>::empty()) == Seq::<Span>::empty(),
        inserted_controllers(items.push((c, d))) == inserted_controllers(items).push(c),
        inserted_deadlines(items.push((c, d))) == inserted_deadlines(items).push(d),
{
    assert(inserted_controllers(Seq::<(C, Span)>::empty()) =~= Seq::<C>::empty());
    assert(inserted_deadlines(Seq::<(C, Span)>::empty()) =~= Seq::<Span>::empty());
    assert(inserted_controllers(items.push((c, d))) =~= inserted_controllers(items).push(c));
    assert(inserted_deadlines(items.push((c, d))) =~= inserted_deadlines(items).push(d));
}

/// A manager built after the inserts `items` has one scheduler per insert,
/// at least one, with their budgets summed; handing out a scheduler
/// (`shortest` and its kin update one entry) keeps that number.
pub proof fn lemma_built_manager_size<C>(
    items: Seq<(C, Span)>,
    b: Builder<C>,
    m: LocalSchedManager<C>,
    i: int,
    c: C,
)
    requires
        b.controllers() == inserted_controllers(items),
        b.deadlines() == inserted_deadlines(items),
        m.controllers() == b.controllers(),
        m.deadlines() == b.deadlines(),
        m.deadline_total()@ == span_total(b.deadlines()),
        0 <= i < m.controllers().len(),
    ensures
        m.controllers().len() == items.len(),
        items.len() >= 1,
        m.deadline_total()@ == span_total(inserted_deadlines(items)),
        m.controllers().update(i, c).len() == items.len(),
{
}

} // verus!
