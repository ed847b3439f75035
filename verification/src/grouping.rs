//! The grouped view of the task list: `High` tasks first, then `Medium`, then
//! `Low`, each tier in stored order.

use vstd::prelude::*;
use crate::priority::Priority;
use crate::store::{Tasks, TasksView};
use crate::task::TaskView;

verus! {

/// Whether a task of `priority` is shown under `filter`: `None` shows every
/// task, `Some(p)` only those of priority `p`.
pub open spec fn passes(filter: Option<Priority>, priority: Priority) -> bool {
    filter matches Some(only) ==> only == priority
}

/// The indices below `upto` of the tasks of `priority`, ascending.
pub open spec fn tier_indices(tasks: Seq<TaskView>, priority: Priority, upto: nat) -> Seq<usize>
    decreases upto,
{
    if upto == 0 {
        Seq::empty()
    } else {
        let before = tier_indices(tasks, priority, (upto - 1) as nat);
        if tasks[upto - 1].priority == priority {
            before.push((upto - 1) as usize)
        } else {
            before
        }
    }
}

/// The part of the view that shows the tasks of `priority`.
pub open spec fn tier_view(tasks: Seq<TaskView>, filter: Option<Priority>, priority: Priority) -> Seq<
    usize,
> {
    if passes(filter, priority) {
        tier_indices(tasks, priority, tasks.len())
    } else {
        Seq::empty()
    }
}

/// The indices of the tasks that `filter` shows, tier by tier.
pub open spec fn grouped(tasks: Seq<TaskView>, filter: Option<Priority>) -> Seq<usize> {
    tier_view(tasks, filter, Priority::High) + tier_view(tasks, filter, Priority::Medium)
        + tier_view(tasks, filter, Priority::Low)
}

/// Task `i` is shown before task `j`: it is in a higher tier, or in the same
/// tier and stored earlier.
pub open spec fn shown_before(tasks: Seq<TaskView>, i: usize, j: usize) -> bool {
    tasks[i as int].priority.tier() < tasks[j as int].priority.tier() || (tasks[i as int].priority
        == tasks[j as int].priority && i < j)
}

/// Every entry of `order` is the index of a task that `filter` shows.
pub open spec fn only_shown(tasks: Seq<TaskView>, filter: Option<Priority>, order: Seq<usize>) -> bool {
    forall|k: int|
        0 <= k < order.len() ==> (#[trigger] order[k]) < tasks.len() && passes(
            filter,
            tasks[order[k] as int].priority,
        )
}

/// Every task that `filter` shows has its index in `order`.
pub open spec fn all_shown(tasks: Seq<TaskView>, filter: Option<Priority>, order: Seq<usize>) -> bool {
    forall|i: int|
        0 <= i < tasks.len() && passes(filter, (#[trigger] tasks[i]).priority) ==> order.contains(
            i as usize,
        )
}

/// The entries of `order` stand tier by tier, and in stored order within a
/// tier.
pub open spec fn in_view_order(tasks: Seq<TaskView>, order: Seq<usize>) -> bool {
    forall|a: int, b: int|
        0 <= a < b < order.len() ==> shown_before(tasks, #[trigger] order[a], #[trigger] order[b])
}

/// `order` is the grouped view of `tasks` under `filter`: it lists exactly the
/// tasks shown, each once, tier by tier and in stored order within a tier.
pub open spec fn is_grouped_view(
    tasks: Seq<TaskView>,
    filter: Option<Priority>,
    order: Seq<usize>,
) -> bool {
    &&& only_shown(tasks, filter, order)
    &&& all_shown(tasks, filter, order)
    &&& in_view_order(tasks, order)
}

/// What `tier_indices` lists: exactly the indices below `upto` of the tasks of
/// `priority`, ascending.
pub proof fn lemma_tier_indices(tasks: Seq<TaskView>, priority: Priority, upto: nat)
    requires
        upto <= tasks.len() <= usize::MAX,
    ensures
        ({
            let tier = tier_indices(tasks, priority, upto);
            &&& tier.len() <= upto
            &&& forall|k: int|
                0 <= k < tier.len() ==> (#[trigger] tier[k]) < upto && tasks[tier[k] as int].priority
                    == priority
            &&& forall|i: int|
                0 <= i < upto && (#[trigger] tasks[i]).priority == priority ==> tier.contains(
                    i as usize,
                )
            &&& forall|a: int, b: int|
                0 <= a < b < tier.len() ==> (#[trigger] tier[a]) < (#[trigger] tier[b])
        }),
    decreases upto,
{
    if upto > 0 {
        let before = tier_indices(tasks, priority, (upto - 1) as nat);
        let all = tier_indices(tasks, priority, upto);
        lemma_tier_indices(tasks, priority, (upto - 1) as nat);
        assert forall|i: int|
            0 <= i < upto && (#[trigger] tasks[i]).priority == priority implies all.contains(
            i as usize,
        ) by {
            if i < upto - 1 {
                assert(before.contains(i as usize));
                let k = choose|k: int| 0 <= k < before.len() && before[k] == i as usize;
                assert(all[k] == i as usize);
            } else {
                assert(all[all.len() - 1] == i as usize);
            }
        }
    }
}

/// `grouped` is the grouped view.
pub proof fn lemma_grouped_is_grouped_view(tasks: Seq<TaskView>, filter: Option<Priority>)
    requires
        tasks.len() <= usize::MAX,
    ensures
        is_grouped_view(tasks, filter, grouped(tasks, filter)),
{
    let n = tasks.len();
    let high = tier_view(tasks, filter, Priority::High);
    let medium = tier_view(tasks, filter, Priority::Medium);
    let low = tier_view(tasks, filter, Priority::Low);
    let order = grouped(tasks, filter);
    lemma_tier_indices(tasks, Priority::High, n);
    lemma_tier_indices(tasks, Priority::Medium, n);
    lemma_tier_indices(tasks, Priority::Low, n);
    assert forall|k: int| 0 <= k < order.len() implies (#[trigger] order[k]) < tasks.len()
        && tasks[order[k] as int].priority == (if k < high.len() {
        Priority::High
    } else if k < high.len() + medium.len() {
        Priority::Medium
    } else {
        Priority::Low
    }) && passes(filter, tasks[order[k] as int].priority) by {
        if k < high.len() {
            assert(order[k] == high[k]);
        } else if k < high.len() + medium.len() {
            assert(order[k] == medium[k - high.len()]);
        } else {
            assert(order[k] == low[k - high.len() - medium.len()]);
        }
    }
    assert forall|i: int|
        0 <= i < tasks.len() && passes(filter, (#[trigger] tasks[i]).priority) implies order.contains(
        i as usize,
    ) by {
        match tasks[i].priority {
            Priority::High => {
                assert(high.contains(i as usize));
                let k = choose|k: int| 0 <= k < high.len() && high[k] == i as usize;
                assert(order[k] == i as usize);
            },
            Priority::Medium => {
                assert(medium.contains(i as usize));
                let k = choose|k: int| 0 <= k < medium.len() && medium[k] == i as usize;
                assert(order[high.len() + k] == i as usize);
            },
            Priority::Low => {
                assert(low.contains(i as usize));
                let k = choose|k: int| 0 <= k < low.len() && low[k] == i as usize;
                assert(order[high.len() + medium.len() + k] == i as usize);
            },
        }
    }
    assert forall|a: int, b: int| 0 <= a < b < order.len() implies shown_before(
        tasks,
        #[trigger] order[a],
        #[trigger] order[b],
    ) by {
        if b < high.len() {
            assert(order[a] == high[a] && order[b] == high[b]);
        } else if a >= high.len() && b < high.len() + medium.len() {
            assert(order[a] == medium[a - high.len()] && order[b] == medium[b - high.len()]);
        } else if a >= high.len() + medium.len() {
            assert(order[a] == low[a - high.len() - medium.len()] && order[b] == low[b
                - high.len() - medium.len()]);
        }
    }
}

/// A list of tasks has one grouped view only.
pub proof fn lemma_grouped_view_unique(
    tasks: Seq<TaskView>,
    filter: Option<Priority>,
    first: Seq<usize>,
    second: Seq<usize>,
)
    requires
        is_grouped_view(tasks, filter, first),
        is_grouped_view(tasks, filter, second),
    ensures
        first == second,
{
    lemma_same_entries_same_order(tasks, first, second);
}

/// Two lists of valid indices that stand in view order and have the same
/// entries are the same list.
proof fn lemma_same_entries_same_order(tasks: Seq<TaskView>, first: Seq<usize>, second: Seq<usize>)
    requires
        in_view_order(tasks, first),
        in_view_order(tasks, second),
        forall|k: int| 0 <= k < first.len() ==> second.contains(#[trigger] first[k]),
        forall|k: int| 0 <= k < second.len() ==> first.contains(#[trigger] second[k]),
    ensures
        first == second,
    decreases first.len(),
{
    if first.len() == 0 {
        if second.len() > 0 {
            assert(first.contains(second[0]));
        }
        assert(first =~= second);
    } else {
        assert(second.contains(first[0]));
        let last1 = first.last();
        let last2 = second.last();
        assert(second.contains(first[first.len() - 1]));
        let k2 = choose|k: int| 0 <= k < second.len() && second[k] == last1;
        assert(first.contains(second[second.len() - 1]));
        let k1 = choose|k: int| 0 <= k < first.len() && first[k] == last2;
        if k2 < second.len() - 1 {
            assert(shown_before(tasks, second[k2], second[second.len() - 1]));
        }
        if k1 < first.len() - 1 {
            assert(shown_before(tasks, first[k1], first[first.len() - 1]));
        }
        assert(last1 == last2);
        let head1 = first.drop_last();
        let head2 = second.drop_last();
        assert forall|k: int| 0 <= k < head1.len() implies head2.contains(#[trigger] head1[k]) by {
            assert(head1[k] == first[k]);
            assert(second.contains(first[k]));
            let j = choose|j: int| 0 <= j < second.len() && second[j] == first[k];
            assert(shown_before(tasks, first[k], first[first.len() - 1]));
            assert(j < second.len() - 1);
            assert(head2[j] == first[k]);
        }
        assert forall|k: int| 0 <= k < head2.len() implies head1.contains(#[trigger] head2[k]) by {
            assert(head2[k] == second[k]);
            assert(first.contains(second[k]));
            let j = choose|j: int| 0 <= j < first.len() && first[j] == second[k];
            assert(shown_before(tasks, second[k], second[second.len() - 1]));
            assert(j < first.len() - 1);
            assert(head1[j] == second[k]);
        }
        assert(in_view_order(tasks, head1)) by {
            assert forall|a: int, b: int| 0 <= a < b < head1.len() implies shown_before(
                tasks,
                #[trigger] head1[a],
                #[trigger] head1[b],
            ) by {
                assert(head1[a] == first[a] && head1[b] == first[b]);
            }
        }
        assert(in_view_order(tasks, head2)) by {
            assert forall|a: int, b: int| 0 <= a < b < head2.len() implies shown_before(
                tasks,
                #[trigger] head2[a],
                #[trigger] head2[b],
            ) by {
                assert(head2[a] == second[a] && head2[b] == second[b]);
            }
        }
        lemma_same_entries_same_order(tasks, head1, head2);
        assert(first =~= head1.push(last1));
        assert(second =~= head2.push(last2));
    }
}

/// The tasks at the indices of `order`, in that order: what the view shows.
pub open spec fn tasks_shown(tasks: Seq<TaskView>, order: Seq<usize>) -> Seq<TaskView> {
    order.map_values(|i: usize| tasks[i as int])
}

/// Grouping is idempotent: the tasks that a grouped view shows, taken in the
/// order in which it shows them, are already grouped, so that their own
/// grouped view lists them as they stand.
pub proof fn lemma_grouped_idempotent(tasks: Seq<TaskView>, filter: Option<Priority>)
    requires
        tasks.len() <= usize::MAX,
    ensures
        grouped(tasks, filter).len() <= tasks.len(),
        grouped(tasks_shown(tasks, grouped(tasks, filter)), filter) == Seq::new(
            grouped(tasks, filter).len(),
            |k: int| k as usize,
        ),
{
    let order = grouped(tasks, filter);
    let shown = tasks_shown(tasks, order);
    let as_they_stand = Seq::new(order.len(), |k: int| k as usize);
    lemma_tier_indices(tasks, Priority::High, tasks.len());
    lemma_tier_indices(tasks, Priority::Medium, tasks.len());
    lemma_tier_indices(tasks, Priority::Low, tasks.len());
    lemma_tier_sizes(tasks, tasks.len());
    lemma_grouped_is_grouped_view(tasks, filter);
    assert(only_shown(shown, filter, as_they_stand)) by {
        assert forall|k: int| 0 <= k < as_they_stand.len() implies (#[trigger] as_they_stand[k])
            < shown.len() && passes(filter, shown[as_they_stand[k] as int].priority) by {
            assert(order[k] < tasks.len());
        }
    }
    assert(all_shown(shown, filter, as_they_stand)) by {
        assert forall|i: int|
            0 <= i < shown.len() && passes(
                filter,
                (#[trigger] shown[i]).priority,
            ) implies as_they_stand.contains(i as usize) by {
            assert(as_they_stand[i] == i as usize);
        }
    }
    assert(in_view_order(shown, as_they_stand)) by {
        assert forall|a: int, b: int| 0 <= a < b < as_they_stand.len() implies shown_before(
            shown,
            #[trigger] as_they_stand[a],
            #[trigger] as_they_stand[b],
        ) by {
            assert(shown_before(tasks, order[a], order[b]));
        }
    }
    lemma_grouped_is_grouped_view(shown, filter);
    lemma_grouped_view_unique(shown, filter, grouped(shown, filter), as_they_stand);
}

/// The three tiers share out the tasks: their sizes add up to the number of
/// tasks.
pub proof fn lemma_tier_sizes(tasks: Seq<TaskView>, upto: nat)
    requires
        upto <= tasks.len(),
    ensures
        tier_indices(tasks, Priority::High, upto).len() + tier_indices(
            tasks,
            Priority::Medium,
            upto,
        ).len() + tier_indices(tasks, Priority::Low, upto).len() == upto,
    decreases upto,
{
    if upto > 0 {
        lemma_tier_sizes(tasks, (upto - 1) as nat);
    }
}

/// Without a filter the grouped view is a rearrangement of the whole list:
/// it has one entry for each task.
pub proof fn lemma_grouped_covers_all(tasks: Seq<TaskView>)
    requires
        tasks.len() <= usize::MAX,
    ensures
        grouped(tasks, None).len() == tasks.len(),
        forall|i: usize| i < tasks.len() ==> #[trigger] grouped(tasks, None).contains(i),
{
    lemma_tier_sizes(tasks, tasks.len());
    lemma_grouped_is_grouped_view(tasks, None);
    assert forall|i: usize| i < tasks.len() implies #[trigger] grouped(tasks, None).contains(
        i,
    ) by {
        assert(passes(None, tasks[i as int].priority));
    }
}

impl TasksView {
    /// The indices of the tasks in the order in which the list shows them.
    pub open spec fn grouped_view(self, filter: Option<Priority>) -> Seq<usize> {
        grouped(self.tasks, filter)
    }
}

impl Tasks {
    /// The order in which the list shows the tasks: the indices of the `High`
    /// tasks, then of the `Medium` ones, then of the `Low` ones, each tier in
    /// stored order. With `Some(p)` as `filter` only the tasks of priority `p`
    /// are listed. The store is not changed.
    pub fn grouped_view(&self, filter: Option<Priority>) -> (order: Vec<usize>)
        ensures
            order@ == self@.grouped_view(filter),
            is_grouped_view(self@.tasks, filter, order@),
            filter.is_none() ==> order.len() == self.tasks.len(),
    {
        let mut order: Vec<usize> = Vec::new();
        let len = self.tasks.len();
        self.list_tier(&mut order, filter, Priority::High);
        self.list_tier(&mut order, filter, Priority::Medium);
        self.list_tier(&mut order, filter, Priority::Low);
        proof {
            assert(self@.tasks.len() == len);
            assert(order@ =~= grouped(self@.tasks, filter));
            lemma_grouped_is_grouped_view(self@.tasks, filter);
            lemma_grouped_covers_all(self@.tasks);
        }
        order
    }

    /// Appends to `order` the indices of the tasks of `priority`, if `filter`
    /// shows them.
    fn list_tier(&self, order: &mut Vec<usize>, filter: Option<Priority>, priority: Priority)
        ensures
            final(order)@ == old(order)@ + tier_view(self@.tasks, filter, priority),
    {
        let wanted = match filter {
            None => true,
            Some(only) => only == priority,
        };
        if wanted {
            let len = self.tasks.len();
            let mut i: usize = 0;
            while i < len
                invariant
                    i <= len,
                    len == self.tasks.len(),
                    order@ == old(order)@ + tier_indices(self@.tasks, priority, i as nat),
                decreases len - i,
            {
                if self.tasks[i].priority == priority {
                    order.push(i);
                }
                i += 1;
                assert(order@ =~= old(order)@ + tier_indices(self@.tasks, priority, i as nat));
            }
        } else {
            assert(order@ =~= old(order)@ + tier_view(self@.tasks, filter, priority));
        }
    }
}

} // verus!
