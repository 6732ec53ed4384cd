use todo_manager::task::{Task, TaskPreference, TaskStatus, Timestamp};
use todo_manager::todo_list::{LoadError, TaskFilter, TodoError, TodoList};

fn at(secs: i64) -> Timestamp {
    Timestamp { secs, nanos: 0 }
}

fn list_of(titles: &[&str]) -> TodoList {
    let mut l = TodoList::new();
    for (k, t) in titles.iter().enumerate() {
        l.add_task(Task::new_at(t.to_string(), format!("d{}", k), at(100 + k as i64)));
    }
    l
}

fn titles(l: &TodoList) -> Vec<String> {
    l.tasks.iter().map(|t| t.title.clone()).collect()
}

#[test]
fn add_to_empty_list() {
    let mut l = TodoList::new();
    l.add_task(Task::new("Buy milk".to_string(), "2%, organic".to_string()));
    assert_eq!(l.tasks.len(), 1);
    assert_eq!(l.tasks[0].title, "Buy milk");
    assert_eq!(l.tasks[0].description, "2%, organic");
    assert_eq!(l.tasks[0].status, TaskStatus::Pending);
    assert_eq!(l.tasks[0].preference, TaskPreference::Vazio);
    assert!(l.tasks[0].completed_at.is_none());
    assert!(!l.tasks[0].completed());
}

#[test]
fn remove_middle_of_three() {
    let mut l = list_of(&["a", "b", "c"]);
    assert_eq!(l.remove_task(1), Ok(()));
    assert_eq!(l.tasks.len(), 2);
    assert_eq!(titles(&l), vec!["a".to_string(), "c".to_string()]);
    assert_eq!(l.tasks[1].description, "d2");
}

#[test]
fn remove_first_and_last() {
    let mut l = list_of(&["a", "b", "c"]);
    assert_eq!(l.remove_task(0), Ok(()));
    assert_eq!(titles(&l), vec!["b".to_string(), "c".to_string()]);
    assert_eq!(l.remove_task(1), Ok(()));
    assert_eq!(titles(&l), vec!["b".to_string()]);
}

#[test]
fn edit_preference_then_read_it() {
    let mut l = list_of(&["a", "b"]);
    assert_eq!(l.get_task_preference(1), Some(&TaskPreference::Vazio));
    assert_eq!(l.edit_task_preference(1, TaskPreference::Alto), Ok(()));
    assert_eq!(l.get_task_preference(1), Some(&TaskPreference::Alto));
    assert_eq!(l.get_task_preference(0), Some(&TaskPreference::Vazio));
}

#[test]
fn missing_save_gives_empty_list() {
    let (l, warning) = TodoList::from_load_result(Err(LoadError::Missing));
    assert!(l.tasks.is_empty());
    assert_eq!(warning, None);
}

#[test]
fn malformed_save_gives_empty_list_and_warning() {
    let (l, warning) = TodoList::from_load_result(Err(LoadError::Malformed));
    assert!(l.tasks.is_empty());
    assert_eq!(warning, Some(LoadError::Malformed));
}

#[test]
fn loaded_list_is_kept() {
    let (l, warning) = TodoList::from_load_result(Ok(list_of(&["x", "y"])));
    assert_eq!(titles(&l), vec!["x".to_string(), "y".to_string()]);
    assert_eq!(warning, None);
}

#[test]
fn complete_sets_status_and_time() {
    let mut l = list_of(&["a", "b"]);
    assert_eq!(l.complete_task(1), Ok(()));
    let t = &l.tasks[1];
    assert_eq!(t.status, TaskStatus::Completed);
    assert!(t.completed());
    let c = t.completed_at.expect("completion time");
    assert!(t.created_at.le(&c));
    assert_eq!(l.tasks[0].status, TaskStatus::Pending);
    assert!(l.tasks[0].completed_at.is_none());
}

#[test]
fn complete_at_given_time() {
    let mut l = list_of(&["a"]);
    assert_eq!(l.complete_task_at(0, at(500)), Ok(()));
    assert_eq!(l.tasks[0].completed_at, Some(at(500)));
    assert_eq!(l.tasks[0].created_at, at(100));
}

#[test]
fn completion_never_precedes_creation() {
    let mut t = Task::new_at("a".to_string(), String::new(), Timestamp { secs: 100, nanos: 7 });
    t.complete_at(Timestamp { secs: 100, nanos: 3 });
    assert_eq!(t.completed_at, Some(Timestamp { secs: 100, nanos: 7 }));
    t.complete_at(Timestamp { secs: 101, nanos: 0 });
    assert_eq!(t.completed_at, Some(Timestamp { secs: 101, nanos: 0 }));
}

#[test]
fn timestamp_order() {
    assert!(at(1).le(&at(2)));
    assert!(at(2).le(&at(2)));
    assert!(!at(3).le(&at(2)));
    assert!(Timestamp { secs: 2, nanos: 1 }.le(&Timestamp { secs: 2, nanos: 2 }));
    assert!(!Timestamp { secs: 2, nanos: 3 }.le(&Timestamp { secs: 2, nanos: 2 }));
}

#[test]
fn out_of_range_changes_nothing() {
    let mut l = list_of(&["a", "b", "c"]);
    let before = format!("{:?}", l);
    assert_eq!(l.remove_task(3), Err(TodoError::InvalidIndex));
    assert_eq!(l.complete_task(3), Err(TodoError::InvalidIndex));
    assert_eq!(l.complete_task_at(usize::MAX, at(1)), Err(TodoError::InvalidIndex));
    assert_eq!(l.edit_task_title(7, "x".to_string()), Err(TodoError::TaskNotFound));
    assert_eq!(l.set_task_title(3, "x".to_string()), Err(TodoError::TaskNotFound));
    assert_eq!(l.edit_task_preference(3, TaskPreference::Baixo), Err(TodoError::TaskNotFound));
    assert_eq!(l.get_task_status(3), None);
    assert_eq!(l.get_task_preference(3), None);
    assert_eq!(format!("{:?}", l), before);
}

#[test]
fn out_of_range_on_empty_list() {
    let mut l = TodoList::new();
    assert_eq!(l.remove_task(0), Err(TodoError::InvalidIndex));
    assert_eq!(l.complete_task(0), Err(TodoError::InvalidIndex));
    assert!(l.tasks.is_empty());
}

#[test]
fn edit_title_trims() {
    let mut l = list_of(&["a", "b"]);
    assert_eq!(l.edit_task_title(0, "  New title \n".to_string()), Ok(()));
    assert_eq!(l.tasks[0].title, "New title");
    assert_eq!(l.tasks[0].description, "d0");
    assert_eq!(l.tasks[1].title, "b");
}

#[test]
fn set_title_keeps_text() {
    let mut l = list_of(&["a"]);
    assert_eq!(l.set_task_title(0, " spaced ".to_string()), Ok(()));
    assert_eq!(l.tasks[0].title, " spaced ");
}

#[test]
fn new_task_keeps_texts_verbatim() {
    let t = Task::new("  a ".to_string(), " b ".to_string());
    assert_eq!(t.title, "  a ");
    assert_eq!(t.description, " b ");
    assert!(t.created_at.secs > 0);
}

#[test]
fn priority_setters() {
    let mut t = Task::new_at("a".to_string(), String::new(), at(1));
    t.high();
    assert_eq!(t.preference, TaskPreference::Alto);
    t.average();
    assert_eq!(t.preference, TaskPreference::Medio);
    t.low();
    assert_eq!(t.preference, TaskPreference::Baixo);
    t.set_preference(TaskPreference::Vazio);
    assert_eq!(t.preference, TaskPreference::Vazio);
    assert_eq!(t.title, "a");
    assert_eq!(t.status, TaskStatus::Pending);
}

#[test]
fn status_lookup() {
    let mut l = list_of(&["a", "b"]);
    l.complete_task_at(0, at(200)).unwrap();
    assert_eq!(l.get_task_status(0), Some(&TaskStatus::Completed));
    assert_eq!(l.get_task_status(1), Some(&TaskStatus::Pending));
}

fn mixed_list() -> TodoList {
    let mut l = list_of(&["a", "b", "c", "d", "e"]);
    l.complete_task_at(1, at(300)).unwrap();
    l.complete_task_at(3, at(300)).unwrap();
    l.edit_task_preference(2, TaskPreference::Alto).unwrap();
    l.edit_task_preference(3, TaskPreference::Baixo).unwrap();
    l.edit_task_preference(4, TaskPreference::Medio).unwrap();
    l
}

#[test]
fn filter_views() {
    let l = mixed_list();
    assert_eq!(l.show_tasks(), vec![0, 1, 2, 3, 4]);
    assert_eq!(l.show_tasks_completed(), vec![1, 3]);
    assert_eq!(l.show_tasks_pending(), vec![0, 2, 4]);
    assert_eq!(l.show_tasks_preference_void(), vec![0]);
    assert_eq!(l.show_tasks_preference_invoid(), vec![2, 4]);
    assert_eq!(l.indices_where(TaskFilter::Completed), vec![1, 3]);
}

#[test]
fn filter_views_of_empty_list() {
    let l = TodoList::new();
    assert!(l.show_tasks().is_empty());
    assert!(l.show_tasks_completed().is_empty());
    assert!(l.show_tasks_pending().is_empty());
    assert!(l.show_tasks_preference_void().is_empty());
    assert!(l.show_tasks_preference_invoid().is_empty());
}

#[test]
fn status_views_partition_all() {
    let l = mixed_list();
    let mut joined = l.show_tasks_completed();
    joined.extend(l.show_tasks_pending());
    joined.sort();
    assert_eq!(joined, l.show_tasks());
}

#[test]
fn pending_views_partition_pending() {
    let l = mixed_list();
    let mut joined = l.show_tasks_preference_void();
    joined.extend(l.show_tasks_preference_invoid());
    joined.sort();
    assert_eq!(joined, l.show_tasks_pending());
}

#[test]
fn filter_keeps() {
    let mut t = Task::new_at("a".to_string(), String::new(), at(1));
    assert!(TaskFilter::PendingUnranked.keeps(&t));
    assert!(!TaskFilter::PendingRanked.keeps(&t));
    t.high();
    assert!(TaskFilter::PendingRanked.keeps(&t));
    t.complete_at(at(2));
    assert!(TaskFilter::Completed.keeps(&t));
    assert!(!TaskFilter::Pending.keeps(&t));
    assert!(TaskFilter::All.keeps(&t));
}
