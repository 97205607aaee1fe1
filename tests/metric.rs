use phab::dto::Task;
use phab::metric::StatusMetric;

fn task_with_status(id: &str, status: &str) -> Task {
    Task {
        id: id.to_owned(),
        task_type: "TASK".to_owned(),
        phid: String::new(),
        name: String::new(),
        description: String::new(),
        author_phid: String::new(),
        assigned_phid: None,
        status: status.to_owned(),
        priority: String::new(),
        point: None,
        project_phids: vec![],
        board: None,
        created_at: 0,
        updated_at: 0,
    }
}

#[test]
fn count_done_tasks_counts_listed_statuses() {
    let done_statuses = vec!["done".to_owned(), "foo".to_owned()];
    let tasks = vec![
        task_with_status("1", "done"),
        task_with_status("2", "done"),
        task_with_status("3", "open"),
    ];

    assert_eq!(StatusMetric::count_done_tasks(vec![], &done_statuses), 0);
    assert_eq!(StatusMetric::count_done_tasks(tasks, &done_statuses), 2);
}

#[test]
fn count_done_tasks_with_other_done_status() {
    let done_statuses = vec!["done".to_owned(), "foo".to_owned()];
    let tasks = vec![task_with_status("1", "foo"), task_with_status("2", "Done")];
    assert_eq!(StatusMetric::count_done_tasks(tasks, &done_statuses), 1);
    assert_eq!(StatusMetric::count_done_tasks(vec![task_with_status("1", "done")], &vec![]), 0);
}
