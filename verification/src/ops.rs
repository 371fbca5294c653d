//! The five operations on a task collection, each with its full contract.

use crate::model::CustomError;
use crate::model::TodoAccount;
use crate::model::TodoItem;
use crate::model::MAX_DESCRIPTION_BYTES;
use crate::model::completion_set;
use crate::model::description_bytes;
use crate::model::description_set;
use crate::model::has_task;
use crate::model::task_index;
use crate::model::unique_ids;
use vstd::prelude::*;

verus! {

/// When ids are pairwise distinct, the position of a task carrying `id`
/// is the position [`task_index`] names.
pub proof fn lemma_task_index_is(tasks: Seq<TodoItem>, id: u32, i: int)
    requires
        unique_ids(tasks),
        0 <= i < tasks.len(),
        tasks[i].id == id,
    ensures
        has_task(tasks, id),
        task_index(tasks, id) == i,
{
    assert(has_task(tasks, id));
    let k = task_index(tasks, id);
    assert(0 <= k < tasks.len() && tasks[k].id == id);
    if k < i {
        assert(tasks[k].id != tasks[i].id);
    } else if i < k {
        assert(tasks[i].id != tasks[k].id);
    }
}

/// Position of the first task carrying `id`, scanning front to back.
fn find_task(tasks: &Vec<TodoItem>, id: u32) -> (r: Option<usize>)
    ensures
        match r {
            Some(i) => i < tasks@.len() && tasks@[i as int].id == id && (forall|j: int|
                0 <= j < i ==> #[trigger] tasks@[j].id != id),
            None => !has_task(tasks@, id),
        },
{
    let mut i: usize = 0;
    while i < tasks.len()
        invariant
            i <= tasks@.len(),
            forall|j: int| 0 <= j < i ==> #[trigger] tasks@[j].id != id,
        decreases tasks@.len() - i,
    {
        if tasks[i].id == id {
            return Some(i);
        }
        i = i + 1;
    }
    None
}

/// Resets the collection to an empty task list with a fresh counter.
pub fn initialize_todo_account(account: &mut TodoAccount)
    ensures
        final(account).wf(),
        final(account).tasks@ == Seq::<TodoItem>::empty(),
        final(account).next_id == 0,
{
    account.tasks = Vec::new();
    account.next_id = 0;
}

/// Creates a task with a fresh id and appends it to the collection.
///
/// The description must fit in [`MAX_DESCRIPTION_BYTES`] bytes, else the
/// call fails with `DescriptionTooLong` and leaves the collection as it
/// was. On success the returned id is the counter's current value, which
/// no existing task carries, and the counter moves past it.
pub fn create_todo_item(
    account: &mut TodoAccount,
    description: String,
    due_date: i64,
    owner: [u8; 32],
) -> (r: Result<u32, CustomError>)
    requires
        old(account).wf(),
        old(account).next_id < u32::MAX,
    ensures
        final(account).wf(),
        description_bytes(description@) > MAX_DESCRIPTION_BYTES ==> {
            &&& r == Err::<u32, CustomError>(CustomError::DescriptionTooLong)
            &&& *final(account) == *old(account)
        },
        description_bytes(description@) <= MAX_DESCRIPTION_BYTES ==> {
            &&& r == Ok::<u32, CustomError>(old(account).next_id)
            &&& !has_task(old(account).tasks@, old(account).next_id)
            &&& final(account).next_id == old(account).next_id + 1
            &&& final(account).tasks@ == old(account).tasks@.push(
                (TodoItem {
                    id: old(account).next_id,
                    description: description,
                    completed: false,
                    due_date: due_date,
                    owner: owner,
                }),
            )
        },
{
    if description.as_str().len() > MAX_DESCRIPTION_BYTES {
        return Err(CustomError::DescriptionTooLong);
    }
    let id = account.next_id;
    account.next_id = account.next_id + 1;
    account.tasks.push(
        TodoItem { id, description, completed: false, due_date, owner },
    );
    Ok(id)
}

/// Marks the task carrying `id` complete or incomplete.
///
/// Fails with `InvalidTaskId`, leaving the collection as it was, exactly
/// when no task carries `id`; otherwise only that task's completion flag
/// changes.
pub fn mark_todo_status(account: &mut TodoAccount, id: u32, completed: bool) -> (r: Result<
    (),
    CustomError,
>)
    requires
        old(account).wf(),
    ensures
        final(account).wf(),
        final(account).next_id == old(account).next_id,
        has_task(old(account).tasks@, id) ==> {
            &&& r == Ok::<(), CustomError>(())
            &&& final(account).tasks@ == completion_set(old(account).tasks@, id, completed)
        },
        !has_task(old(account).tasks@, id) ==> {
            &&& r == Err::<(), CustomError>(CustomError::InvalidTaskId)
            &&& *final(account) == *old(account)
        },
{
    match find_task(&account.tasks, id) {
        Some(i) => {
            proof {
                lemma_task_index_is(account.tasks@, id, i as int);
            }
            account.tasks[i].completed = completed;
            Ok(())
        },
        None => Err(CustomError::InvalidTaskId),
    }
}

/// Replaces the description of the task carrying `id`.
///
/// The length check comes first: a description over the byte bound fails
/// with `DescriptionTooLong` even when no task carries `id`. After that,
/// a missing id fails with `InvalidTaskId`. Either failure leaves the
/// collection as it was; on success only that task's description changes.
pub fn update_todo_description(account: &mut TodoAccount, id: u32, new_description: String) -> (r:
    Result<(), CustomError>)
    requires
        old(account).wf(),
    ensures
        final(account).wf(),
        final(account).next_id == old(account).next_id,
        description_bytes(new_description@) > MAX_DESCRIPTION_BYTES ==> {
            &&& r == Err::<(), CustomError>(CustomError::DescriptionTooLong)
            &&& *final(account) == *old(account)
        },
        description_bytes(new_description@) <= MAX_DESCRIPTION_BYTES && !has_task(
            old(account).tasks@,
            id,
        ) ==> {
            &&& r == Err::<(), CustomError>(CustomError::InvalidTaskId)
            &&& *final(account) == *old(account)
        },
        description_bytes(new_description@) <= MAX_DESCRIPTION_BYTES && has_task(
            old(account).tasks@,
            id,
        ) ==> {
            &&& r == Ok::<(), CustomError>(())
            &&& final(account).tasks@ == description_set(old(account).tasks@, id, new_description)
        },
{
    if new_description.as_str().len() > MAX_DESCRIPTION_BYTES {
        return Err(CustomError::DescriptionTooLong);
    }
    match find_task(&account.tasks, id) {
        Some(i) => {
            proof {
                lemma_task_index_is(account.tasks@, id, i as int);
            }
            account.tasks[i].description = new_description;
            Ok(())
        },
        None => Err(CustomError::InvalidTaskId),
    }
}

/// Removes the task carrying `id` and compacts the list, keeping the
/// remaining tasks in their relative order.
///
/// Fails with `InvalidTaskId`, leaving the collection as it was, exactly
/// when no task carries `id`; otherwise exactly one task goes and no task
/// with that id remains.
pub fn delete_todo_item(account: &mut TodoAccount, id: u32) -> (r: Result<(), CustomError>)
    requires
        old(account).wf(),
    ensures
        final(account).wf(),
        final(account).next_id == old(account).next_id,
        has_task(old(account).tasks@, id) ==> {
            &&& r == Ok::<(), CustomError>(())
            &&& final(account).tasks@ == old(account).tasks@.remove(
                task_index(old(account).tasks@, id),
            )
            &&& final(account).tasks@.len() == old(account).tasks@.len() - 1
            &&& !has_task(final(account).tasks@, id)
        },
        !has_task(old(account).tasks@, id) ==> {
            &&& r == Err::<(), CustomError>(CustomError::InvalidTaskId)
            &&& *final(account) == *old(account)
        },
{
    match find_task(&account.tasks, id) {
        Some(i) => {
            proof {
                lemma_task_index_is(account.tasks@, id, i as int);
            }
            let ghost pre = account.tasks@;
            account.tasks.remove(i);
            proof {
                assert forall|j: int|
                    0 <= j < account.tasks@.len() implies #[trigger] account.tasks@[j].id
                    != id by {
                    if j < i {
                        assert(account.tasks@[j] == pre[j]);
                        assert(pre[j].id != pre[i as int].id);
                    } else {
                        assert(account.tasks@[j] == pre[j + 1]);
                        assert(pre[i as int].id != pre[j + 1].id);
                    }
                }
            }
            Ok(())
        },
        None => Err(CustomError::InvalidTaskId),
    }
}

} // verus!
