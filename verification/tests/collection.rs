use todo_cli::due::{CivilDateTime, DueDate};
use todo_cli::todo::{Priority, Todo, TodoError, TodoList};

fn strings(items: &[&str]) -> Vec<String> {
    items.iter().map(|s| s.to_string()).collect()
}

fn task(id: usize, text: &str, priority: Option<Priority>, tags: &[&str], due: Option<DueDate>) -> Todo {
    Todo { id, text: text.to_string(), done: false, priority, tags: strings(tags), due_date: due }
}

fn ids(list: &TodoList) -> Vec<usize> {
    list.list().iter().map(|t| t.id).collect()
}

fn sample() -> TodoList {
    let mut list = TodoList::new();
    list.add_resolved("write report".to_string(), Some(Priority::High), strings(&["work", "urgent"]), None);
    list.add_resolved("buy milk".to_string(), None, strings(&["home"]), None);
    list.add_resolved("call bank".to_string(), Some(Priority::High), strings(&["home"]), None);
    list.add_resolved("water plants".to_string(), Some(Priority::Low), strings(&["home", "work"]), None);
    list
}

#[test]
fn new_collection_is_empty() {
    let list = TodoList::new();
    assert!(list.list().is_empty());
    assert_eq!(list.highest_id(), 0);
}

#[test]
fn example_scenario() {
    let mut list = TodoList::new();
    assert!(list.add("buy milk".to_string(), None, Vec::new(), None).is_ok());
    assert_eq!(list.list().len(), 1);
    let first = &list.list()[0];
    assert_eq!(first.id, 1);
    assert_eq!(first.text, "buy milk");
    assert!(!first.done);
    assert_eq!(first.priority, None);
    assert!(first.tags.is_empty());
    assert_eq!(first.due_date, None);

    assert!(list.mark_done(1).is_ok());
    assert!(list.list()[0].done);

    let lines = list.print(None, None, None);
    assert_eq!(lines.len(), 1);
    assert!(lines[0].contains("buy milk"));
    assert!(lines[0].contains("\u{2714}"));
    assert_eq!(lines[0], "[\u{2714}] 1: buy milk   ");

    assert!(list.remove(1).is_ok());
    assert!(list.list().is_empty());
    assert!(matches!(list.mark_done(1), Err(TodoError::NotFound(1))));
}

#[test]
fn ids_count_up_from_one() {
    let list = sample();
    assert_eq!(ids(&list), vec![1, 2, 3, 4]);
}

#[test]
fn new_id_follows_largest_remaining() {
    let mut list = sample();
    assert!(list.remove(2).is_ok());
    list.add_resolved("a".to_string(), None, Vec::new(), None);
    assert_eq!(ids(&list), vec![1, 3, 4, 5]);
    assert!(list.remove(5).is_ok());
    assert!(list.remove(4).is_ok());
    list.add_resolved("b".to_string(), None, Vec::new(), None);
    assert_eq!(ids(&list), vec![1, 3, 4]);
    assert_eq!(list.highest_id(), 4);
    let mut seen = ids(&list);
    seen.sort();
    seen.dedup();
    assert_eq!(seen.len(), list.list().len());
}

#[test]
fn new_id_follows_largest_even_out_of_order() {
    let stored = vec![task(7, "x", None, &[], None), task(3, "y", None, &[], None)];
    let mut list = TodoList::from_todos(stored).unwrap();
    assert_eq!(list.highest_id(), 7);
    list.add_resolved("z".to_string(), None, Vec::new(), None);
    assert_eq!(ids(&list), vec![7, 3, 8]);
}

#[test]
fn from_todos_refuses_shared_ids() {
    let stored = vec![task(1, "x", None, &[], None), task(2, "y", None, &[], None), task(1, "z", None, &[], None)];
    assert!(TodoList::from_todos(stored).is_none());
}

#[test]
fn from_todos_keeps_order_and_fields() {
    let due = DueDate { secs: 10, nanos: 5, offset: -3600 };
    let stored = vec![task(9, "x", Some(Priority::Medium), &["t", "t"], Some(due)), task(2, "y", None, &[], None)];
    let list = TodoList::from_todos(stored).unwrap();
    assert_eq!(ids(&list), vec![9, 2]);
    let first = &list.list()[0];
    assert_eq!(first.text, "x");
    assert_eq!(first.priority, Some(Priority::Medium));
    assert_eq!(first.tags, strings(&["t", "t"]));
    assert_eq!(first.due_date, Some(due));
}

#[test]
fn added_task_holds_what_was_given() {
    let mut list = TodoList::new();
    let due = DueDate { secs: 1_700_000_000, nanos: 0, offset: 7200 };
    list.add_resolved("x".to_string(), Some(Priority::Low), strings(&["a", "b", "a"]), Some(due));
    let t = &list.list()[0];
    assert_eq!(t.id, 1);
    assert_eq!(t.text, "x");
    assert!(!t.done);
    assert_eq!(t.priority, Some(Priority::Low));
    assert_eq!(t.tags, strings(&["a", "b", "a"]));
    assert_eq!(t.due_date, Some(due));
}

#[test]
fn add_without_due_always_succeeds() {
    let mut list = sample();
    assert!(list.add("x".to_string(), Some(Priority::Medium), strings(&["t"]), None).is_ok());
    assert_eq!(ids(&list), vec![1, 2, 3, 4, 5]);
    assert_eq!(list.list()[4].due_date, None);
}

#[test]
fn add_with_impossible_civil_time_fails_and_changes_nothing() {
    let mut list = sample();
    let civil = CivilDateTime { year: 2024, month: 13, day: 1, hour: 0, minute: 0, second: 0, nano: 0 };
    let r = list.add("x".to_string(), None, Vec::new(), Some(civil));
    assert!(matches!(r, Err(TodoError::InvalidDateTime)));
    assert_eq!(ids(&list), vec![1, 2, 3, 4]);
}

#[test]
fn add_with_civil_time_stores_an_instant_or_fails() {
    let mut list = TodoList::new();
    let civil = CivilDateTime { year: 2024, month: 1, day: 15, hour: 12, minute: 0, second: 0, nano: 0 };
    match list.add("x".to_string(), None, Vec::new(), Some(civil)) {
        Ok(()) => {
            let due = list.list()[0].due_date.unwrap();
            let local = due.secs + (due.offset as i64);
            assert_eq!(local, 1_705_320_000);
            assert_eq!(due.nanos, 0);
        }
        Err(e) => {
            assert!(matches!(e, TodoError::InvalidDateTime));
            assert!(list.list().is_empty());
        }
    }
}

#[test]
fn mark_done_sets_only_that_task() {
    let mut list = sample();
    assert!(list.mark_done(3).is_ok());
    let done: Vec<bool> = list.list().iter().map(|t| t.done).collect();
    assert_eq!(done, vec![false, false, true, false]);
    assert!(list.mark_done(3).is_ok());
    assert!(list.list()[2].done);
    assert_eq!(list.list()[2].text, "call bank");
    assert_eq!(ids(&list), vec![1, 2, 3, 4]);
}

#[test]
fn toggle_twice_restores() {
    let mut list = sample();
    assert!(list.toggle(2).is_ok());
    assert!(list.list()[1].done);
    assert!(list.toggle(2).is_ok());
    assert!(!list.list()[1].done);
    assert!(list.mark_done(4).is_ok());
    assert!(list.toggle(4).is_ok());
    assert!(!list.list()[3].done);
    assert!(list.toggle(4).is_ok());
    assert!(list.list()[3].done);
}

#[test]
fn remove_keeps_the_order_of_the_rest() {
    let mut list = sample();
    assert!(list.remove(2).is_ok());
    assert_eq!(ids(&list), vec![1, 3, 4]);
    let texts: Vec<&str> = list.list().iter().map(|t| t.text.as_str()).collect();
    assert_eq!(texts, vec!["write report", "call bank", "water plants"]);
}

#[test]
fn absent_id_is_not_found_and_nothing_changes() {
    let mut list = sample();
    assert!(list.mark_done(1).is_ok());
    assert!(matches!(list.mark_done(9), Err(TodoError::NotFound(9))));
    assert!(matches!(list.toggle(0), Err(TodoError::NotFound(0))));
    assert!(matches!(list.remove(5), Err(TodoError::NotFound(5))));
    assert_eq!(ids(&list), vec![1, 2, 3, 4]);
    let done: Vec<bool> = list.list().iter().map(|t| t.done).collect();
    assert_eq!(done, vec![true, false, false, false]);
}

#[test]
fn find_gives_the_position() {
    let mut list = sample();
    assert!(list.remove(1).is_ok());
    assert_eq!(list.find(3), Some(1));
    assert_eq!(list.find(1), None);
}

#[test]
fn error_messages() {
    assert_eq!(TodoError::NotFound(12).to_string(), "Todo with id 12 not found");
    assert_eq!(TodoError::InvalidDateTime.to_string(), "Invalid DateTime");
    assert_eq!(TodoError::Io("denied".to_string()).to_string(), "IO error: denied");
    assert_eq!(TodoError::Json("eof".to_string()).to_string(), "Json error: eof");
}

#[test]
fn priority_names() {
    assert_eq!(Priority::High.to_string(), "high");
    assert_eq!(Priority::Medium.to_string(), "medium");
    assert_eq!(Priority::Low.to_string(), "low");
}

#[test]
fn priority_is_read_ignoring_case() {
    assert_eq!(Priority::from_str("high"), Ok(Priority::High));
    assert_eq!(Priority::from_str("HIGH"), Ok(Priority::High));
    assert_eq!(Priority::from_str("Medium"), Ok(Priority::Medium));
    assert_eq!(Priority::from_str("lOw"), Ok(Priority::Low));
}

#[test]
fn unknown_priority_is_refused_with_the_word_as_given() {
    assert_eq!(
        Priority::from_str("Urgent"),
        Err("Invalid priority 'Urgent'. Allowed values: high, medium, low".to_string())
    );
    assert_eq!(
        Priority::from_str(""),
        Err("Invalid priority ''. Allowed values: high, medium, low".to_string())
    );
}

#[test]
fn from_lowercase_compares_exactly() {
    assert_eq!(Priority::from_lowercase("low", "LOW"), Ok(Priority::Low));
    assert_eq!(
        Priority::from_lowercase("HIGH", "HIGH"),
        Err("Invalid priority 'HIGH'. Allowed values: high, medium, low".to_string())
    );
}
