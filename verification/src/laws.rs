//! Laws that relate several operations, proved over the same spec-level
//! transforms the operation contracts are stated with.

use crate::model::TodoItem;
use crate::model::completion_set;
use crate::model::description_set;
use crate::model::has_task;
use crate::model::task_index;
use crate::model::unique_ids;
use crate::ops::lemma_task_index_is;
use vstd::prelude::*;

verus! {

/// A strictly increasing counter sequence never repeats: across any gap,
/// later values are strictly larger.
proof fn lemma_strictly_increasing_across(counters: Seq<u32>, k1: int, k2: int)
    requires
        forall|k: int| 0 <= k < counters.len() - 1 ==> #[trigger] counters[k] < counters[k + 1],
        0 <= k1 < k2 < counters.len(),
    ensures
        counters[k1] < counters[k2],
    decreases k2 - k1,
{
    if k1 + 1 < k2 {
        lemma_strictly_increasing_across(counters, k1, k2 - 1);
        assert(counters[k2 - 1] < counters[k2]);
    } else {
        assert(counters[k1] < counters[k1 + 1]);
    }
}

/// Ids handed out by successful creations are pairwise distinct.
///
/// `create_todo_item` returns the counter's current value and leaves the
/// counter strictly larger, and no other operation lowers the counter. So
/// over any run of operations, the counter values observed at successive
/// successful creations (`counters`) are strictly increasing, and the ids
/// those creations return (`ids`) never repeat.
pub proof fn lemma_created_ids_distinct(counters: Seq<u32>, ids: Seq<u32>)
    requires
        ids.len() == counters.len(),
        forall|k: int| 0 <= k < ids.len() ==> #[trigger] ids[k] == counters[k],
        forall|k: int| 0 <= k < counters.len() - 1 ==> #[trigger] counters[k] < counters[k + 1],
    ensures
        forall|k1: int, k2: int| 0 <= k1 < k2 < ids.len() ==> ids[k1] != ids[k2],
{
    assert forall|k1: int, k2: int| 0 <= k1 < k2 < ids.len() implies ids[k1] != ids[k2] by {
        lemma_strictly_increasing_across(counters, k1, k2);
    }
}

/// Replacing a description touches nothing else: every other task is
/// unchanged, and of the addressed task only the description field moves.
pub proof fn lemma_update_isolation(tasks: Seq<TodoItem>, id: u32, description: String)
    requires
        unique_ids(tasks),
        has_task(tasks, id),
    ensures
        ({
            let i = task_index(tasks, id);
            let updated = description_set(tasks, id, description);
            &&& updated.len() == tasks.len()
            &&& forall|j: int| 0 <= j < tasks.len() && j != i ==> updated[j] == tasks[j]
            &&& updated[i].id == tasks[i].id
            &&& updated[i].completed == tasks[i].completed
            &&& updated[i].due_date == tasks[i].due_date
            &&& updated[i].owner == tasks[i].owner
            &&& updated[i].description == description
        }),
{
    let i = task_index(tasks, id);
    assert(0 <= i < tasks.len() && tasks[i].id == id);
}

/// Setting a completion flag twice leaves the same collection as setting
/// it once.
pub proof fn lemma_set_completion_idempotent(tasks: Seq<TodoItem>, id: u32, completed: bool)
    requires
        unique_ids(tasks),
        has_task(tasks, id),
    ensures
        completion_set(completion_set(tasks, id, completed), id, completed) == completion_set(
            tasks,
            id,
            completed,
        ),
{
    let i = task_index(tasks, id);
    assert(0 <= i < tasks.len() && tasks[i].id == id);
    let once = completion_set(tasks, id, completed);
    assert forall|p: int, q: int| 0 <= p < q < once.len() implies once[p].id != once[q].id by {
        assert(tasks[p].id != tasks[q].id);
    }
    lemma_task_index_is(once, id, i);
    let twice = completion_set(once, id, completed);
    assert(twice =~= once);
}

/// Removing the task carrying `id` keeps every remaining task in its
/// relative order: tasks before the removed position stay where they
/// were, tasks after it each move up by one.
pub proof fn lemma_delete_preserves_order(tasks: Seq<TodoItem>, id: u32)
    requires
        unique_ids(tasks),
        has_task(tasks, id),
    ensures
        ({
            let i = task_index(tasks, id);
            let remaining = tasks.remove(i);
            &&& remaining.len() == tasks.len() - 1
            &&& forall|j: int| 0 <= j < i ==> remaining[j] == tasks[j]
            &&& forall|j: int| i <= j < remaining.len() ==> remaining[j] == tasks[j + 1]
        }),
{
    let i = task_index(tasks, id);
    assert(0 <= i < tasks.len() && tasks[i].id == id);
}

} // verus!
