//! A personal task list: tasks with a status, a priority and timestamps,
//! kept in an ordered list that is edited by position.
use vstd::prelude::*;

pub mod task;
pub mod todo_list;

verus! {

} // verus!
