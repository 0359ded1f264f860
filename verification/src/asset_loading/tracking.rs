//! Tracking of assets that become resources once loaded: a queue of handles
//! still waiting for their assets, and the list of handles already done.
use std::collections::VecDeque;
use crate::app_plan::{AppPlan, Registration, ResourceKind, RunCondition, Schedule, SystemId};
use vstd::prelude::*;

verus! {

/// The items whose flag equals `keep`, in order.
pub open spec fn select<H>(items: Seq<H>, flags: Seq<bool>, keep: bool) -> Seq<H>
    decreases items.len(),
{
    if items.len() == 0 {
        Seq::empty()
    } else {
        let rest = select(items.drop_last(), flags.drop_last(), keep);
        if flags.last() == keep {
            rest.push(items.last())
        } else {
            rest
        }
    }
}

/// Handles of assets that are inserted as resources when loaded.
pub struct ResourceHandles<H> {
    waiting: VecDeque<H>,
    finished: Vec<H>,
}

impl<H> ResourceHandles<H> {
    /// The handles still waiting for their assets, in queue order.
    pub closed spec fn waiting_handles(&self) -> Seq<H> {
        self.waiting@
    }

    /// The handles whose assets were loaded and inserted, in that order.
    pub closed spec fn finished_handles(&self) -> Seq<H> {
        self.finished@
    }

    pub fn new() -> (handles: Self)
        ensures
            handles.waiting_handles() == Seq::<H>::empty(),
            handles.finished_handles() == Seq::<H>::empty(),
    {
        ResourceHandles { waiting: VecDeque::new(), finished: Vec::new() }
    }

    /// Returns true if all requested assets have finished loading and are
    /// available as resources.
    pub fn is_all_done(&self) -> (done: bool)
        ensures
            done == (self.waiting_handles().len() == 0),
    {
        self.waiting.len() == 0
    }

    pub fn total_count(&self) -> (count: usize)
        requires
            self.waiting_handles().len() + self.finished_handles().len() <= usize::MAX,
        ensures
            count == self.waiting_handles().len() + self.finished_handles().len(),
    {
        self.waiting.len() + self.finished.len()
    }

    pub fn finished_count(&self) -> (count: usize)
        ensures
            count == self.finished_handles().len(),
    {
        self.finished.len()
    }

    /// The handles still waiting, for the caller to ask which are loaded.
    pub fn waiting(&self) -> (waiting: &VecDeque<H>)
        ensures
            waiting@ == self.waiting_handles(),
    {
        &self.waiting
    }

    /// The finished handles.
    pub fn finished(&self) -> (finished: &Vec<H>)
        ensures
            finished@ == self.finished_handles(),
    {
        &self.finished
    }

    /// Adds a handle to the end of the waiting queue.
    pub fn push_handle(&mut self, handle: H)
        ensures
            final(self).waiting_handles() == old(self).waiting_handles().push(handle),
            final(self).finished_handles() == old(self).finished_handles(),
    {
        self.waiting.push_back(handle);
    }

    /// One pass over the waiting queue, given for each waiting handle whether
    /// its asset is loaded with all its dependencies: loaded handles move to
    /// the finished list (where the caller inserts their resources), the
    /// others stay waiting, in their order. Returns how many moved.
    pub fn load_resource_assets(&mut self, loaded: &Vec<bool>) -> (moved: usize)
        requires
            loaded@.len() == old(self).waiting_handles().len(),
        ensures
            final(self).waiting_handles() == select(old(self).waiting_handles(), loaded@, false),
            final(self).finished_handles() == old(self).finished_handles() + select(
                old(self).waiting_handles(),
                loaded@,
                true,
            ),
            moved == select(old(self).waiting_handles(), loaded@, true).len(),
    {
        let ghost w0 = self.waiting@;
        let ghost f0 = self.finished@;
        let n = self.waiting.len();
        let mut moved: usize = 0;
        let mut i: usize = 0;
        assert(w0.subrange(0, 0) =~= Seq::<H>::empty());
        assert(w0.subrange(0, n as int) =~= w0);
        while i < n
            invariant
                n == w0.len(),
                loaded@.len() == n,
                i <= n,
                self.waiting@ == w0.subrange(i as int, n as int) + select(
                    w0.subrange(0, i as int),
                    loaded@.subrange(0, i as int),
                    false,
                ),
                self.finished@ == f0 + select(
                    w0.subrange(0, i as int),
                    loaded@.subrange(0, i as int),
                    true,
                ),
                moved == select(w0.subrange(0, i as int), loaded@.subrange(0, i as int), true).len(),
                moved <= i,
            decreases n - i,
        {
            let ghost before = self.waiting@;
            let handle = self.waiting.pop_front().unwrap();
            let ghost items = w0.subrange(0, i + 1);
            let ghost flags = loaded@.subrange(0, i + 1);
            assert(items.drop_last() =~= w0.subrange(0, i as int));
            assert(flags.drop_last() =~= loaded@.subrange(0, i as int));
            assert(items.last() == handle);
            assert(flags.last() == loaded@[i as int]);
            if loaded[i] {
                self.finished.push(handle);
                moved = moved + 1;
                assert(self.waiting@ =~= w0.subrange(i + 1, n as int) + select(items, flags, false));
            } else {
                self.waiting.push_back(handle);
                assert(self.waiting@ =~= w0.subrange(i + 1, n as int) + select(items, flags, false));
            }
            i = i + 1;
        }
        assert(w0.subrange(n as int, n as int) =~= Seq::<H>::empty());
        assert(loaded@.subrange(0, n as int) =~= loaded@);
        assert(self.waiting@ =~= select(w0, loaded@, false));
        moved
    }
}

/// The two selections split the items: their lengths add up.
pub proof fn lemma_select_lengths<H>(items: Seq<H>, flags: Seq<bool>)
    requires
        flags.len() == items.len(),
    ensures
        select(items, flags, true).len() + select(items, flags, false).len() == items.len(),
    decreases items.len(),
{
    if items.len() > 0 {
        lemma_select_lengths(items.drop_last(), flags.drop_last());
    }
}

/// When every waiting asset is loaded, all of them move and none waits.
pub proof fn lemma_select_all<H>(items: Seq<H>, flags: Seq<bool>)
    requires
        flags.len() == items.len(),
        forall|i: int| 0 <= i < flags.len() ==> #[trigger] flags[i],
    ensures
        select(items, flags, true) == items,
        select(items, flags, false) == Seq::<H>::empty(),
    decreases items.len(),
{
    if items.len() > 0 {
        lemma_select_all(items.drop_last(), flags.drop_last());
        assert(items.drop_last().push(items.last()) =~= items);
    }
}

/// A loading pass neither loses nor duplicates handles: the total count stays,
/// and once every waiting asset is loaded, everything is done.
pub proof fn lemma_load_pass_keeps_total<H>(
    waiting: Seq<H>,
    finished: Seq<H>,
    loaded: Seq<bool>,
)
    requires
        loaded.len() == waiting.len(),
    ensures
        select(waiting, loaded, false).len() + (finished + select(waiting, loaded, true)).len()
            == waiting.len() + finished.len(),
        (forall|i: int| 0 <= i < loaded.len() ==> #[trigger] loaded[i]) ==> select(
            waiting,
            loaded,
            false,
        ).len() == 0,
{
    lemma_select_lengths(waiting, loaded);
    if forall|i: int| 0 <= i < loaded.len() ==> #[trigger] loaded[i] {
        lemma_select_all(waiting, loaded);
    }
}

/// The registrations of this module's plugin, in order.
pub open spec fn plugin_steps() -> Seq<Registration> {
    seq![
        Registration::InitResource(ResourceKind::ResourceHandles),
        Registration::System { schedule: Schedule::PreUpdate, system: SystemId::LoadResourceAssets, condition: RunCondition::Always, set: None, after: None },
    ]
}

/// Tracks the assets that become resources, every frame before the update.
pub fn plugin(app: &mut AppPlan)
    ensures
        final(app)@ == old(app)@ + plugin_steps(),
{
    let ghost start = app@;
    app.add(Registration::InitResource(ResourceKind::ResourceHandles));
    app.add(Registration::System { schedule: Schedule::PreUpdate, system: SystemId::LoadResourceAssets, condition: RunCondition::Always, set: None, after: None });
    assert(app@ =~= start + plugin_steps());
}

} // verus!
