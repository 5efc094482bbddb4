use crate::helper::{first_min_index, is_first_min, BuildError};
use crate::time::Span;
use vstd::prelude::*;

verus! {

/// An executor's controller and its time budget.
pub struct ExecutorItem<C> {
    pub controller: C,
    pub deadline: Span,
}

/// The executors of a worker.
pub struct ExecutorManager<C> {
    list: Vec<ExecutorItem<C>>,
}

impl<C> ExecutorManager<C> {
    /// The executors, in the order they were inserted.
    pub closed spec fn items(self) -> Seq<ExecutorItem<C>> {
        self.list@
    }

    pub fn builder() -> (r: ExecutorManagerBuilder<C>)
        ensures
            r.items().len() == 0,
    {
        ExecutorManagerBuilder { list: Vec::new() }
    }

    pub fn num_executors(&self) -> (r: usize)
        ensures
            r == self.items().len(),
    {
        self.list.len()
    }

    /// The executor with the least queueing time: `queueing[i]` is the
    /// longest queueing time of the `i`-th executor.  Ties go to the one
    /// inserted first.
    pub fn shortest(&self, queueing: &Vec<Span>) -> (r: &C)
        requires
            self.items().len() > 0,
            queueing.len() == self.items().len(),
        ensures
            exists|i: int|
                #![trigger is_first_min(queueing@, i)]
                is_first_min(queueing@, i) && *r == self.items()[i].controller,
    {
        let i = first_min_index(queueing);
        &self.list[i].controller
    }
}

impl<C> Default for ExecutorManager<C> {
    /// A manager of no executors.
    fn default() -> (r: Self)
        ensures
            r.items().len() == 0,
    {
        ExecutorManager { list: Vec::new() }
    }
}

impl<C> Default for ExecutorManagerBuilder<C> {
    fn default() -> (r: Self)
        ensures
            r.items().len() == 0,
    {
        ExecutorManagerBuilder { list: Vec::new() }
    }
}

/// Collects executors before a manager is built.
pub struct ExecutorManagerBuilder<C> {
    list: Vec<ExecutorItem<C>>,
}

impl<C> ExecutorManagerBuilder<C> {
    pub closed spec fn items(self) -> Seq<ExecutorItem<C>> {
        self.list@
    }

    /// Adds an executor with its time budget at the end.
    pub fn insert(&mut self, controller: C, deadline: Span)
        ensures
            final(self).items() == old(self).items().push(ExecutorItem { controller, deadline }),
    {
        self.list.push(ExecutorItem { controller, deadline });
    }

    /// The manager of the executors inserted so far; an error where none was
    /// inserted.
    pub fn build(self) -> (r: Result<ExecutorManager<C>, BuildError>)
        ensures
            r is Err <==> self.items().len() == 0,
            r matches Ok(m) ==> m.items() == self.items(),
    {
        if self.list.len() == 0 {
            return Err(BuildError::NoController);
        }
        Ok(ExecutorManager { list: self.list })
    }
}

/// The items of a sequence of inserts, in order.
pub open spec fn inserted_items<C>(items: Seq<(C, Span)>) -> Seq<ExecutorItem<C>> {
    items.map_values(|x: (C, Span)| ExecutorItem { controller: x.0, deadline: x.1 })
}

/// A fresh builder holds what no inserts made, and each insert adds its
/// item at the end: after the inserts `items`, a builder holds
/// `inserted_items(items)`.
pub proof fn lemma_inserts_accumulate<C>(items: Seq<(C, Span)>, c: C, d: Span)
    ensures
        inserted_items(Seq::<(C, Span)>::empty()) == Seq::<ExecutorItem<C>>::empty(),
        inserted_items(items.push((c, d))) == inserted_items(items).push(
            (ExecutorItem { controller: c, deadline: d }),
        ),
{
    assert(inserted_items(Seq::<(C, Span)>::empty()) =~= Seq::<ExecutorItem<C>>::empty());
    assert(inserted_items(items.push((c, d))) =~= inserted_items(items).push(
        (ExecutorItem { controller: c, deadline: d }),
    ));
}

/// A manager built after the inserts `items` has one executor per insert,
/// at least one, in insert order.
pub proof fn lemma_built_manager_size<C>(
    items: Seq<(C, Span)>,
    b: ExecutorManagerBuilder<C>,
    m: ExecutorManager<C>,
)
    requires
        b.items() == inserted_items(items),
        m.items() == b.items(),
        m.items().len() > 0,
    ensures
        m.items().len() == items.len(),
        items.len() >= 1,
        forall|i: int|
            0 <= i < items.len() ==> (#[trigger] m.items()[i]).controller == items[i].0
                && m.items()[i].deadline == items[i].1,
{
}

} // verus!
