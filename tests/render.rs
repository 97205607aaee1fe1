use phab::dto::{Board, Task, TaskFamily};
use phab::render::task_tree_lines;

fn task(id: &str, status: &str, board: Option<&str>, point: Option<u64>) -> Task {
    Task {
        id: id.to_owned(),
        task_type: "TASK".to_owned(),
        phid: String::new(),
        name: format!("Task {}", id),
        description: String::new(),
        author_phid: String::new(),
        assigned_phid: None,
        status: status.to_owned(),
        priority: String::new(),
        point,
        project_phids: vec![],
        board: board.map(|n| Board { id: 1, phid: "PHID-PCOL-1".into(), name: n.into() }),
        created_at: 0,
        updated_at: 0,
    }
}

fn family(t: Task, children: Vec<TaskFamily>) -> TaskFamily {
    TaskFamily { parent_task: t, children }
}

#[test]
fn tree_lines_indent_children_and_skip_invalid() {
    let tree = vec![family(
        task("1", "open", Some("Doing"), Some(3)),
        vec![
            family(task("2", "resolved", None, None), vec![family(task("4", "open", None, Some(1)), vec![])]),
            family(task("3", "invalid", None, None), vec![family(task("5", "open", None, None), vec![])]),
        ],
    )];
    assert_eq!(
        task_tree_lines(&tree, 0),
        vec![
            "[T1 open - Doing point: 3] Task 1",
            "  [T2 resolved - NoBoard point: 0] Task 2",
            "    [T4 open - NoBoard point: 1] Task 4",
        ]
    );
}

#[test]
fn tree_lines_start_at_given_level() {
    let tree = vec![
        family(task("7", "open", None, Some(12345678901)), vec![]),
        family(task("8", "invalid", None, None), vec![]),
        family(task("9", "open", Some("Backlog"), None), vec![]),
    ];
    assert_eq!(
        task_tree_lines(&tree, 2),
        vec![
            "    [T7 open - NoBoard point: 12345678901] Task 7",
            "    [T9 open - Backlog point: 0] Task 9",
        ]
    );
    assert!(task_tree_lines(&vec![], 3).is_empty());
}
