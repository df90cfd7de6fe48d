//! The status of a task and the rules that guard changes to a day's tasks.
use vstd::prelude::*;

verus! {

/// The status of a task.
#[derive(Debug, Clone, Copy, PartialEq, Eq, Structural)]
pub enum TaskStatus {
    Pending,
    Completed,
    Abandoned,
}

/// The name under which a task status is stored.
pub open spec fn status_name(s: TaskStatus) -> Seq<char> {
    match s {
        TaskStatus::Pending => "pending"@,
        TaskStatus::Completed => "completed"@,
        TaskStatus::Abandoned => "abandoned"@,
    }
}

impl TaskStatus {
    /// The name under which this status is stored.
    pub fn as_db_str(self) -> (r: &'static str)
        ensures
            r@ == status_name(self),
    {
        match self {
            TaskStatus::Pending => "pending",
            TaskStatus::Completed => "completed",
            TaskStatus::Abandoned => "abandoned",
        }
    }
}

/// Whether a task with the stored status may be deleted: completed and
/// abandoned tasks must be reopened first.
pub fn can_delete(status: &String) -> (r: bool)
    ensures
        r == (status@ != status_name(TaskStatus::Completed) && status@ != status_name(
            TaskStatus::Abandoned,
        )),
{
    let completed = TaskStatus::Completed.as_db_str().to_owned();
    let abandoned = TaskStatus::Abandoned.as_db_str().to_owned();
    !(*status == completed || *status == abandoned)
}

/// Whether a task with the stored status may be reopened: it must not be
/// pending already.
pub fn can_reopen(status: &String) -> (r: bool)
    ensures
        r == (status@ != status_name(TaskStatus::Pending)),
{
    !(*status == TaskStatus::Pending.as_db_str().to_owned())
}

/// Whether a task may be completed, given how many of its subtasks are still
/// pending: only when none is.
pub fn can_complete(pending_subtasks: i64) -> (r: bool)
    ensures
        r == (pending_subtasks <= 0),
{
    pending_subtasks <= 0
}

/// The position of a new top-level task after those of its day, whose largest
/// position is `max_position` (-1 for an empty day); `None` when no position
/// is left after it.
pub fn next_position(max_position: i64) -> (r: Option<i64>)
    ensures
        max_position < i64::MAX ==> r == Some((max_position + 1) as i64),
        max_position == i64::MAX ==> r.is_none(),
{
    max_position.checked_add(1)
}

/// The position that index `k` of a new order gives a task (zero where the
/// index does not fit in an `i64`).
pub open spec fn position_at(k: int) -> i64 {
    if k <= i64::MAX {
        k as i64
    } else {
        0
    }
}

/// The positions of reordered tasks: each task's index in the new order.
pub fn positions_in_order(task_ids: &Vec<i64>) -> (r: Vec<(i64, i64)>)
    ensures
        r@.len() == task_ids@.len(),
        forall|k: int| 0 <= k < r@.len() ==> #[trigger] r@[k] == (position_at(k), task_ids@[k]),
{
    let mut out: Vec<(i64, i64)> = Vec::new();
    let mut k: usize = 0;
    while k < task_ids.len()
        invariant
            k <= task_ids@.len(),
            out@.len() == k,
            forall|m: int| 0 <= m < k ==> #[trigger] out@[m] == (position_at(m), task_ids@[m]),
        decreases task_ids@.len() - k,
    {
        let position: i64 = if (k as u64) <= (i64::MAX as u64) {
            k as i64
        } else {
            0
        };
        out.push((position, task_ids[k]));
        k = k + 1;
    }
    out
}

} // verus!
