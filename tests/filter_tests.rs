use notion_cli_rs::filter::{contains_text, copy_task, TaskFilter};
use notion_cli_rs::{Task, TaskPriority, TaskStatus};

fn task(id: &str, status: TaskStatus, priority: Option<TaskPriority>, tags: &[&str]) -> Task {
    Task {
        id: id.to_string(),
        title: format!("Task {}", id),
        status,
        url: None,
        priority,
        due_date: None,
        tags: tags.iter().map(|t| t.to_string()).collect(),
        description: None,
    }
}

fn sample() -> Vec<Task> {
    vec![
        task("1", TaskStatus::Done, Some(TaskPriority::High), &["Work", "home"]),
        task("2", TaskStatus::NotStarted, None, &[]),
        task("3", TaskStatus::Done, Some(TaskPriority::Low), &["HOMEWORK"]),
        task("4", TaskStatus::InProgress, Some(TaskPriority::High), &["errands"]),
    ]
}

fn ids(ts: &[Task]) -> Vec<&str> {
    ts.iter().map(|t| t.id.as_str()).collect()
}

#[test]
fn filter_keeps_everything_without_criteria() {
    let f = TaskFilter { status: None, priority: None, tag: None };
    assert_eq!(ids(&f.apply(&sample())), vec!["1", "2", "3", "4"]);
}

#[test]
fn filter_by_status_and_priority() {
    let f = TaskFilter { status: Some(TaskStatus::Done), priority: None, tag: None };
    assert_eq!(ids(&f.apply(&sample())), vec!["1", "3"]);
    let g = TaskFilter { status: None, priority: Some(TaskPriority::High), tag: None };
    assert_eq!(ids(&g.apply(&sample())), vec!["1", "4"]);
    let h = TaskFilter { status: Some(TaskStatus::Done), priority: Some(TaskPriority::High), tag: None };
    assert_eq!(ids(&h.apply(&sample())), vec!["1"]);
}

#[test]
fn filter_by_tag_ignores_case_and_matches_pieces() {
    let f = TaskFilter { status: None, priority: None, tag: Some("Home".to_string()) };
    assert_eq!(ids(&f.apply(&sample())), vec!["1", "3"]);
    let g = TaskFilter { status: None, priority: None, tag: Some("zzz".to_string()) };
    assert!(g.apply(&sample()).is_empty());
}

#[test]
fn text_containment() {
    assert!(contains_text("homework", "mew"));
    assert!(contains_text("abc", ""));
    assert!(contains_text("abc", "abc"));
    assert!(!contains_text("ab", "abc"));
    assert!(!contains_text("abc", "ac"));
}

#[test]
fn task_copy_is_equal() {
    let t = task("9", TaskStatus::InProgress, Some(TaskPriority::Medium), &["x", "y"]);
    assert_eq!(copy_task(&t), t);
}
