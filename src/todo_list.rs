use vstd::prelude::*;

use crate::task::{trim_text, trimmed, Task, TaskPreference, TaskStatus, Timestamp};

verus! {

/// Why an operation on a position of the list did nothing.
#[derive(Debug, Clone, Copy, PartialEq, Eq, Structural)]
pub enum TodoError {
    /// `remove_task` or `complete_task` was given a position past the end.
    InvalidIndex,
    /// An edit was given a position past the end.
    TaskNotFound,
}

/// Why a saved list could not be read back.
#[derive(Debug, Clone, Copy, PartialEq, Eq, Structural)]
pub enum LoadError {
    /// There is no saved list, or it cannot be read.
    Missing,
    /// A saved list is there, but its content is not a task list.
    Malformed,
}

/// A selection of the tasks of a list.
#[derive(Debug, Clone, Copy, PartialEq, Eq, Structural)]
pub enum TaskFilter {
    /// Every task.
    All,
    /// The completed tasks.
    Completed,
    /// The pending tasks.
    Pending,
    /// The pending tasks with no priority yet.
    PendingUnranked,
    /// The pending tasks with a priority.
    PendingRanked,
}

impl TaskFilter {
    /// Whether the selection takes `t`.
    pub open spec fn spec_keeps(self, t: Task) -> bool {
        match self {
            TaskFilter::All => true,
            TaskFilter::Completed => t.status == TaskStatus::Completed,
            TaskFilter::Pending => t.status == TaskStatus::Pending,
            TaskFilter::PendingUnranked => t.status == TaskStatus::Pending && t.preference
                == TaskPreference::Vazio,
            TaskFilter::PendingRanked => t.status == TaskStatus::Pending && t.preference
                != TaskPreference::Vazio,
        }
    }

    pub fn keeps(&self, t: &Task) -> (r: bool)
        ensures
            r == self.spec_keeps(*t),
    {
        match self {
            TaskFilter::All => true,
            TaskFilter::Completed => t.status == TaskStatus::Completed,
            TaskFilter::Pending => t.status == TaskStatus::Pending,
            TaskFilter::PendingUnranked => t.status == TaskStatus::Pending && t.preference
                == TaskPreference::Vazio,
            TaskFilter::PendingRanked => t.status == TaskStatus::Pending && t.preference
                != TaskPreference::Vazio,
        }
    }
}

/// The positions, in increasing order, of the tasks of `tasks` that `f` takes.
pub open spec fn positions(tasks: Seq<Task>, f: TaskFilter) -> Seq<int>
    decreases tasks.len(),
{
    if tasks.len() == 0 {
        seq![]
    } else {
        let rest = positions(tasks.drop_last(), f);
        if f.spec_keeps(tasks.last()) {
            rest.push(tasks.len() - 1)
        } else {
            rest
        }
    }
}

/// A position is listed exactly when it is in range and its task is taken.
pub proof fn lemma_positions_contains(tasks: Seq<Task>, f: TaskFilter, i: int)
    ensures
        positions(tasks, f).contains(i) <==> (0 <= i < tasks.len() && f.spec_keeps(tasks[i])),
    decreases tasks.len(),
{
    if tasks.len() > 0 {
        let init = tasks.drop_last();
        lemma_positions_contains(init, f, i);
        let rest = positions(init, f);
        if f.spec_keeps(tasks.last()) {
            assert(rest.push(tasks.len() - 1)[rest.len() as int] == tasks.len() - 1);
            if positions(tasks, f).contains(i) {
                let k = choose|k: int| 0 <= k < positions(tasks, f).len() && positions(tasks, f)[k] == i;
                if k < rest.len() {
                    assert(rest[k] == i);
                }
            }
            if rest.contains(i) {
                let k = choose|k: int| 0 <= k < rest.len() && rest[k] == i;
                assert(positions(tasks, f)[k] == i);
            }
        }
    }
}

/// The completed and the pending tasks are all the tasks, and no task is both.
pub proof fn lemma_status_views_partition(tasks: Seq<Task>)
    ensures
        forall|i: int|
            #![trigger positions(tasks, TaskFilter::All).contains(i)]
            positions(tasks, TaskFilter::All).contains(i) <==> (positions(
                tasks,
                TaskFilter::Completed,
            ).contains(i) || positions(tasks, TaskFilter::Pending).contains(i)),
        forall|i: int|
            !(#[trigger] positions(tasks, TaskFilter::Completed).contains(i) && #[trigger] positions(
                tasks,
                TaskFilter::Pending,
            ).contains(i)),
{
    assert forall|i: int|
        positions(tasks, TaskFilter::All).contains(i) <==> (positions(
            tasks,
            TaskFilter::Completed,
        ).contains(i) || positions(tasks, TaskFilter::Pending).contains(i)) by {
        lemma_positions_contains(tasks, TaskFilter::All, i);
        lemma_positions_contains(tasks, TaskFilter::Completed, i);
        lemma_positions_contains(tasks, TaskFilter::Pending, i);
    }
    assert forall|i: int|
        !(positions(tasks, TaskFilter::Completed).contains(i) && positions(
            tasks,
            TaskFilter::Pending,
        ).contains(i)) by {
        lemma_positions_contains(tasks, TaskFilter::Completed, i);
        lemma_positions_contains(tasks, TaskFilter::Pending, i);
    }
}

/// The pending tasks without a priority and those with one are all the
/// pending tasks, and no task is in both.
pub proof fn lemma_pending_views_partition(tasks: Seq<Task>)
    ensures
        forall|i: int|
            #![trigger positions(tasks, TaskFilter::Pending).contains(i)]
            positions(tasks, TaskFilter::Pending).contains(i) <==> (positions(
                tasks,
                TaskFilter::PendingUnranked,
            ).contains(i) || positions(tasks, TaskFilter::PendingRanked).contains(i)),
        forall|i: int|
            !(#[trigger] positions(tasks, TaskFilter::PendingUnranked).contains(i)
                && #[trigger] positions(tasks, TaskFilter::PendingRanked).contains(i)),
{
    assert forall|i: int|
        positions(tasks, TaskFilter::Pending).contains(i) <==> (positions(
            tasks,
            TaskFilter::PendingUnranked,
        ).contains(i) || positions(tasks, TaskFilter::PendingRanked).contains(i)) by {
        lemma_positions_contains(tasks, TaskFilter::Pending, i);
        lemma_positions_contains(tasks, TaskFilter::PendingUnranked, i);
        lemma_positions_contains(tasks, TaskFilter::PendingRanked, i);
    }
    assert forall|i: int|
        !(positions(tasks, TaskFilter::PendingUnranked).contains(i) && positions(
            tasks,
            TaskFilter::PendingRanked,
        ).contains(i)) by {
        lemma_positions_contains(tasks, TaskFilter::PendingUnranked, i);
        lemma_positions_contains(tasks, TaskFilter::PendingRanked, i);
    }
}

/// The task list: its order is the order of display, and a task is named by
/// its position in it.
#[derive(Debug, Clone)]
pub struct TodoList {
    pub tasks: Vec<Task>,
}

impl TodoList {
    /// Every task keeps its completion time consistent with its status.
    pub open spec fn wf(self) -> bool {
        forall|i: int| 0 <= i < self.tasks@.len() ==> (#[trigger] self.tasks@[i]).wf()
    }

    /// An empty list.
    pub fn new() -> (r: TodoList)
        ensures
            r.tasks@ == Seq::<Task>::empty(),
            r.wf(),
    {
        TodoList { tasks: Vec::new() }
    }

    /// The list after a load: the loaded list where there is one, an empty
    /// list otherwise. A saved list that could not be read as one is handed
    /// back as a warning, so that its loss is not silent; a missing one is not.
    pub fn from_load_result(loaded: Result<TodoList, LoadError>) -> (r: (
        TodoList,
        Option<LoadError>,
    ))
        ensures
            loaded matches Ok(l) ==> r.0 == l && r.1 is None,
            loaded is Err ==> r.0.tasks@ == Seq::<Task>::empty(),
            loaded == Err::<TodoList, LoadError>(LoadError::Missing) ==> r.1 is None,
            loaded == Err::<TodoList, LoadError>(LoadError::Malformed) ==> r.1 == Some(
                LoadError::Malformed,
            ),
    {
        match loaded {
            Ok(l) => (l, None),
            Err(LoadError::Missing) => (TodoList::new(), None),
            Err(LoadError::Malformed) => (TodoList::new(), Some(LoadError::Malformed)),
        }
    }

    /// Appends `task` at the end.
    pub fn add_task(&mut self, task: Task)
        ensures
            old(self).wf() && task.wf() ==> final(self).wf(),
            final(self).tasks@ == old(self).tasks@.push(task),
    {
        self.tasks.push(task);
    }

    /// Removes the task at `index`; the tasks after it move down one place.
    /// A position past the end changes nothing.
    pub fn remove_task(&mut self, index: usize) -> (r: Result<(), TodoError>)
        ensures
            old(self).wf() ==> final(self).wf(),
            index < old(self).tasks@.len() ==> r is Ok && final(self).tasks@ == old(
                self,
            ).tasks@.remove(index as int),
            index < old(self).tasks@.len() ==> final(self).tasks@.len() == old(self).tasks@.len()
                - 1,
            index < old(self).tasks@.len() ==> forall|j: int|
                0 <= j < index ==> #[trigger] final(self).tasks@[j] == old(self).tasks@[j],
            index < old(self).tasks@.len() ==> forall|j: int|
                index <= j < final(self).tasks@.len() ==> #[trigger] final(self).tasks@[j] == old(
                    self,
                ).tasks@[j + 1],
            index >= old(self).tasks@.len() ==> r == Err::<(), TodoError>(TodoError::InvalidIndex)
                && *final(self) == *old(self),
    {
        if index < self.tasks.len() {
            self.tasks.remove(index);
            Ok(())
        } else {
            Err(TodoError::InvalidIndex)
        }
    }

    /// Marks the task at `index` completed at `when` (at its creation time
    /// where `when` is before it). A position past the end changes nothing.
    pub fn complete_task_at(&mut self, index: usize, when: Timestamp) -> (r: Result<(), TodoError>)
        ensures
            old(self).wf() ==> final(self).wf(),
            index < old(self).tasks@.len() ==> r is Ok && final(self).tasks@ == old(
                self,
            ).tasks@.update(index as int, old(self).tasks@[index as int].spec_completed_at(when)),
            index >= old(self).tasks@.len() ==> r == Err::<(), TodoError>(TodoError::InvalidIndex)
                && *final(self) == *old(self),
    {
        if index < self.tasks.len() {
            self.tasks[index].complete_at(when);
            Ok(())
        } else {
            Err(TodoError::InvalidIndex)
        }
    }

    /// Marks the task at `index` completed now: its completion time is set,
    /// and is not before its creation time. A position past the end changes
    /// nothing.
    pub fn complete_task(&mut self, index: usize) -> (r: Result<(), TodoError>)
        ensures
            old(self).wf() ==> final(self).wf(),
            index < old(self).tasks@.len() ==> r is Ok && exists|when: Timestamp|
                final(self).tasks@ == old(self).tasks@.update(
                    index as int,
                    #[trigger] old(self).tasks@[index as int].spec_completed_at(when),
                ),
            index < old(self).tasks@.len() ==> final(self).tasks@.len() == old(self).tasks@.len()
                && final(self).tasks@[index as int].status == TaskStatus::Completed
                && (final(self).tasks@[index as int].completed_at matches Some(c) && old(
                self,
            ).tasks@[index as int].created_at.spec_le(c)),
            index >= old(self).tasks@.len() ==> r == Err::<(), TodoError>(TodoError::InvalidIndex)
                && *final(self) == *old(self),
    {
        if index < self.tasks.len() {
            self.tasks[index].complete();
            Ok(())
        } else {
            Err(TodoError::InvalidIndex)
        }
    }

    /// The status of the task at `index`, or `None` past the end.
    pub fn get_task_status(&self, index: usize) -> (r: Option<&TaskStatus>)
        ensures
            index < self.tasks@.len() ==> r == Some(&self.tasks@[index as int].status),
            index >= self.tasks@.len() ==> r is None,
    {
        if index < self.tasks.len() {
            Some(&self.tasks[index].status)
        } else {
            None
        }
    }

    /// The priority of the task at `index`, or `None` past the end.
    pub fn get_task_preference(&self, index: usize) -> (r: Option<&TaskPreference>)
        ensures
            index < self.tasks@.len() ==> r == Some(&self.tasks@[index as int].preference),
            index >= self.tasks@.len() ==> r is None,
    {
        if index < self.tasks.len() {
            Some(&self.tasks[index].preference)
        } else {
            None
        }
    }

    /// Gives the task at `index` the title `title`, as it is. A position
    /// past the end changes nothing.
    pub fn set_task_title(&mut self, index: usize, title: String) -> (r: Result<(), TodoError>)
        ensures
            old(self).wf() ==> final(self).wf(),
            index < old(self).tasks@.len() ==> r is Ok && final(self).tasks@ == old(
                self,
            ).tasks@.update(index as int, (Task { title, ..old(self).tasks@[index as int] })),
            index >= old(self).tasks@.len() ==> r == Err::<(), TodoError>(TodoError::TaskNotFound)
                && *final(self) == *old(self),
    {
        if index < self.tasks.len() {
            self.tasks[index].title = title;
            Ok(())
        } else {
            Err(TodoError::TaskNotFound)
        }
    }

    /// Gives the task at `index` the title `new_title` with its surrounding
    /// whitespace trimmed. A position past the end changes nothing.
    pub fn edit_task_title(&mut self, index: usize, new_title: String) -> (r: Result<
        (),
        TodoError,
    >)
        ensures
            old(self).wf() ==> final(self).wf(),
            index < old(self).tasks@.len() ==> r is Ok && final(self).tasks@.len() == old(
                self,
            ).tasks@.len() && final(self).tasks@[index as int].title@ == trimmed(new_title@)
                && forall|j: int|
                0 <= j < old(self).tasks@.len() && j != index ==> #[trigger] final(self).tasks@[j]
                    == old(self).tasks@[j],
            index < old(self).tasks@.len() ==> (Task {
                title: final(self).tasks@[index as int].title,
                ..old(self).tasks@[index as int]
            }) == final(self).tasks@[index as int],
            index >= old(self).tasks@.len() ==> r == Err::<(), TodoError>(TodoError::TaskNotFound)
                && *final(self) == *old(self),
    {
        let title = trim_text(new_title.as_str());
        self.set_task_title(index, title)
    }

    /// Gives the task at `index` the priority `new_preference`. A position
    /// past the end changes nothing.
    pub fn edit_task_preference(&mut self, index: usize, new_preference: TaskPreference) -> (r:
        Result<(), TodoError>)
        ensures
            old(self).wf() ==> final(self).wf(),
            index < old(self).tasks@.len() ==> r is Ok && final(self).tasks@ == old(
                self,
            ).tasks@.update(
                index as int,
                old(self).tasks@[index as int].spec_with_preference(new_preference),
            ),
            index >= old(self).tasks@.len() ==> r == Err::<(), TodoError>(TodoError::TaskNotFound)
                && *final(self) == *old(self),
    {
        if index < self.tasks.len() {
            self.tasks[index].set_preference(new_preference);
            Ok(())
        } else {
            Err(TodoError::TaskNotFound)
        }
    }

    /// The positions of the tasks that `filter` takes, in list order.
    pub fn indices_where(&self, filter: TaskFilter) -> (r: Vec<usize>)
        ensures
            r@.map_values(|i: usize| i as int) == positions(self.tasks@, filter),
    {
        let mut r: Vec<usize> = Vec::new();
        let mut i: usize = 0;
        while i < self.tasks.len()
            invariant
                i <= self.tasks@.len(),
                r@.map_values(|k: usize| k as int) == positions(self.tasks@.take(i as int), filter),
            decreases self.tasks@.len() - i,
        {
            proof {
                assert(self.tasks@.take(i + 1).drop_last() == self.tasks@.take(i as int));
            }
            if filter.keeps(&self.tasks[i]) {
                r.push(i);
                proof {
                    assert(r@.map_values(|k: usize| k as int) =~= positions(
                        self.tasks@.take(i as int),
                        filter,
                    ).push(i as int));
                }
            }
            i = i + 1;
        }
        proof {
            assert(self.tasks@.take(i as int) == self.tasks@);
        }
        r
    }

    /// The positions of all tasks: the view that lists every task.
    pub fn show_tasks(&self) -> (r: Vec<usize>)
        ensures
            r@.map_values(|i: usize| i as int) == positions(self.tasks@, TaskFilter::All),
    {
        self.indices_where(TaskFilter::All)
    }

    /// The positions of the completed tasks.
    pub fn show_tasks_completed(&self) -> (r: Vec<usize>)
        ensures
            r@.map_values(|i: usize| i as int) == positions(self.tasks@, TaskFilter::Completed),
    {
        self.indices_where(TaskFilter::Completed)
    }

    /// The positions of the pending tasks.
    pub fn show_tasks_pending(&self) -> (r: Vec<usize>)
        ensures
            r@.map_values(|i: usize| i as int) == positions(self.tasks@, TaskFilter::Pending),
    {
        self.indices_where(TaskFilter::Pending)
    }

    /// The positions of the pending tasks that have no priority yet.
    pub fn show_tasks_preference_void(&self) -> (r: Vec<usize>)
        ensures
            r@.map_values(|i: usize| i as int) == positions(
                self.tasks@,
                TaskFilter::PendingUnranked,
            ),
    {
        self.indices_where(TaskFilter::PendingUnranked)
    }

    /// The positions of the pending tasks that have a priority.
    pub fn show_tasks_preference_invoid(&self) -> (r: Vec<usize>)
        ensures
            r@.map_values(|i: usize| i as int) == positions(self.tasks@, TaskFilter::PendingRanked),
    {
        self.indices_where(TaskFilter::PendingRanked)
    }
}

} // verus!
