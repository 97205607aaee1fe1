use phab::dto::{Task, TaskFamily};
use phab::json::Json;
use phab::text::{decimal_string, same_text};

fn task(id: &str) -> Task {
    Task {
        id: id.to_owned(),
        task_type: "TASK".to_owned(),
        phid: "PHID-TASK-1".to_owned(),
        name: "n".to_owned(),
        description: "d".to_owned(),
        author_phid: "a".to_owned(),
        assigned_phid: None,
        status: "open".to_owned(),
        priority: "p".to_owned(),
        point: Some(2),
        project_phids: vec!["x".to_owned()],
        board: None,
        created_at: 3,
        updated_at: 4,
    }
}

#[test]
fn parse_and_render_round_trip() {
    let text = r#"{"a":[1,-2,1.5,true,null,"s\"q"],"b":{"c":{}}}"#;
    let j = Json::parse(text).unwrap();
    assert_eq!(j.render(), text);
    match j.get("a") {
        Some(Json::Array(items)) => {
            assert_eq!(items.len(), 6);
            assert_eq!(items[0].as_u64(), Some(1));
            assert!(matches!(&items[1], Json::OtherNumber(t) if t == "-2"));
            assert!(matches!(items[3], Json::Bool(true)));
            assert!(matches!(items[4], Json::Null));
            assert_eq!(items[5].as_str().map(|s| s.as_str()), Some("s\"q"));
        }
        _ => panic!("no array"),
    }
    assert!(j.get("zz").is_none());
    assert!(Json::parse("[1,").is_err());
}

#[test]
fn json_string_of_families() {
    let fams = vec![TaskFamily { parent_task: task("1"), children: vec![TaskFamily { parent_task: task("2"), children: vec![] }] }];
    let text = TaskFamily::json_string(&fams);
    let back = Json::parse(&text).unwrap();
    let first = match &back {
        Json::Array(items) => &items[0],
        _ => panic!("not an array"),
    };
    let parent = Task::from_stored_json(first.get("parent_task").unwrap()).unwrap();
    assert_eq!(parent, task("1"));
    match first.get("children") {
        Some(Json::Array(items)) => {
            assert_eq!(items.len(), 1);
            assert_eq!(Task::from_stored_json(items[0].get("parent_task").unwrap()).unwrap(), task("2"));
        }
        _ => panic!("no children"),
    }
    assert_eq!(TaskFamily::json_string(&vec![]), "[]");
}

#[test]
fn task_json_round_trip() {
    let t = task("42");
    assert_eq!(Task::from_stored_json(&t.to_json()), Some(t.clone()));
    let text = t.to_json().render();
    assert!(text.contains(r#""assigned_phid":null"#));
    assert_eq!(Task::from_stored_json(&Json::parse(&text).unwrap()), Some(t));
}

#[test]
fn decimal_and_text_helpers() {
    assert_eq!(decimal_string(0), "0");
    assert_eq!(decimal_string(907), "907");
    assert_eq!(decimal_string(u64::MAX), "18446744073709551615");
    assert!(same_text("abc", "abc"));
    assert!(!same_text("abc", "abd"));
    assert!(!same_text("ab", "abc"));
}
