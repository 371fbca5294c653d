//! The data model: task records, the per-owner collection, its invariant,
//! and the spec-level transforms that the operation contracts are stated
//! over.

use vstd::prelude::*;

verus! {

/// Longest description a task may carry, measured in bytes.
pub const MAX_DESCRIPTION_BYTES: usize = 280;

/// One to-do record.
#[derive(Clone)]
pub struct TodoItem {
    /// Identifier, unique within the owning collection.
    pub id: u32,
    /// Free text, at most [`MAX_DESCRIPTION_BYTES`] bytes.
    pub description: String,
    /// Completion flag; false at creation.
    pub completed: bool,
    /// Caller-supplied timestamp, stored as-is.
    pub due_date: i64,
    /// Opaque identity token of the principal that created the task.
    pub owner: [u8; 32],
}

/// The failures an operation can report.
#[derive(Clone, Copy, PartialEq, Eq, Debug)]
pub enum CustomError {
    /// A supplied description exceeds [`MAX_DESCRIPTION_BYTES`] bytes.
    DescriptionTooLong,
    /// The referenced id is not present in the collection.
    InvalidTaskId,
}

/// One owner's task collection: the ordered task list together with the
/// counter that yields the next fresh id.
pub struct TodoAccount {
    /// The tasks, in insertion order.
    pub tasks: Vec<TodoItem>,
    /// Source of fresh ids: strictly above every id in `tasks`.
    pub next_id: u32,
}

/// The length of a description in bytes, as `str::len` reports it.
pub open spec fn description_bytes(s: Seq<char>) -> usize {
    vstd::utf8::encode_utf8(s).len() as usize
}

/// Whether some task in `tasks` carries `id`.
pub open spec fn has_task(tasks: Seq<TodoItem>, id: u32) -> bool {
    exists|i: int| 0 <= i < tasks.len() && tasks[i].id == id
}

/// The position of the task carrying `id`: meaningful when `has_task`
/// holds; under [`unique_ids`] it is the one such position.
pub open spec fn task_index(tasks: Seq<TodoItem>, id: u32) -> int {
    choose|i: int| 0 <= i < tasks.len() && tasks[i].id == id
}

/// All ids in `tasks` are pairwise distinct.
pub open spec fn unique_ids(tasks: Seq<TodoItem>) -> bool {
    forall|i: int, j: int| 0 <= i < j < tasks.len() ==> tasks[i].id != tasks[j].id
}

/// Every description in `tasks` fits the byte bound.
pub open spec fn descriptions_bounded(tasks: Seq<TodoItem>) -> bool {
    forall|i: int|
        0 <= i < tasks.len() ==> description_bytes(#[trigger] tasks[i].description@)
            <= MAX_DESCRIPTION_BYTES
}

/// Every id in `tasks` lies strictly below `bound`.
pub open spec fn ids_below(tasks: Seq<TodoItem>, bound: u32) -> bool {
    forall|i: int| 0 <= i < tasks.len() ==> #[trigger] tasks[i].id < bound
}

/// `t` with its completion flag replaced and every other field kept.
pub open spec fn with_completed(t: TodoItem, completed: bool) -> TodoItem {
    TodoItem {
        id: t.id,
        description: t.description,
        completed: completed,
        due_date: t.due_date,
        owner: t.owner,
    }
}

/// `t` with its description replaced and every other field kept.
pub open spec fn with_description(t: TodoItem, description: String) -> TodoItem {
    TodoItem {
        id: t.id,
        description: description,
        completed: t.completed,
        due_date: t.due_date,
        owner: t.owner,
    }
}

/// `tasks` after the completion flag of the task carrying `id` is set to
/// `completed`.
pub open spec fn completion_set(tasks: Seq<TodoItem>, id: u32, completed: bool) -> Seq<TodoItem> {
    tasks.update(task_index(tasks, id), with_completed(tasks[task_index(tasks, id)], completed))
}

/// `tasks` after the description of the task carrying `id` is replaced by
/// `description`.
pub open spec fn description_set(tasks: Seq<TodoItem>, id: u32, description: String) -> Seq<
    TodoItem,
> {
    tasks.update(
        task_index(tasks, id),
        with_description(tasks[task_index(tasks, id)], description),
    )
}

impl TodoAccount {
    /// The collection invariant: ids pairwise distinct, every description
    /// within the byte bound, and every id below the fresh-id counter.
    pub open spec fn wf(self) -> bool {
        &&& unique_ids(self.tasks@)
        &&& descriptions_bounded(self.tasks@)
        &&& ids_below(self.tasks@, self.next_id)
    }

    /// An empty collection, ready for use.
    pub fn new() -> (account: TodoAccount)
        ensures
            account.wf(),
            account.tasks@ == Seq::<TodoItem>::empty(),
            account.next_id == 0,
    {
        TodoAccount { tasks: Vec::new(), next_id: 0 }
    }
}

} // verus!
