use phab::client::{CertIdentityConfig, PhabricatorClient, PhabricatorClientConfig};
use phab::dto::{Task, TaskFamily};
use phab::error::ErrorType;
use phab::json::Json;

fn dummy_config() -> PhabricatorClientConfig {
    PhabricatorClientConfig {
        host: "http://localhost".into(),
        api_token: "foo".into(),
        cert_identity_config: None,
    }
}

fn pairs(form: &[(String, String)]) -> Vec<(&str, &str)> {
    form.iter().map(|(k, v)| (k.as_str(), v.as_str())).collect()
}

fn task(id: &str, status: &str) -> Task {
    Task {
        id: id.to_owned(),
        task_type: "TASK".to_owned(),
        phid: format!("PHID-TASK-{}", id),
        name: format!("task {}", id),
        description: String::new(),
        author_phid: "PHID-USER-1".to_owned(),
        assigned_phid: None,
        status: status.to_owned(),
        priority: "Normal".to_owned(),
        point: None,
        project_phids: vec![],
        board: None,
        created_at: 1,
        updated_at: 2,
    }
}

const TASK_JSON: &str = r#"{
  "id": 1234, "type": "TASK", "phid": "PHID-TASK-abc",
  "fields": {
    "name": "Fix the login page", "description": {"raw": "It breaks"},
    "authorPHID": "PHID-USER-1", "ownerPHID": "PHID-USER-2",
    "status": {"value": "open"}, "priority": {"name": "High"}, "points": 3,
    "dateCreated": 1600000000, "dateModified": 1600000500
  },
  "attachments": {
    "projects": {"projectPHIDs": ["PHID-PROJ-a", "PHID-PROJ-b", "PHID-PROJ-c"]},
    "columns": {"boards": {
      "PHID-PROJ-b": {"columns": [
        {"id": 7, "phid": "PHID-PCOL-7", "name": "Doing"},
        {"id": 8, "phid": "PHID-PCOL-8", "name": "Done"}
      ]}
    }}
  }
}"#;

#[test]
fn clean_id_strips_leading_t() {
    assert_eq!(PhabricatorClient::clean_id("T1234"), "1234");
}

#[test]
fn clean_id_keeps_plain_id() {
    assert_eq!(PhabricatorClient::clean_id("1234"), "1234");
    assert_eq!(PhabricatorClient::clean_id(PhabricatorClient::clean_id("T1234")), "1234");
}

#[test]
fn clean_id_strips_at_most_one_t() {
    assert_eq!(PhabricatorClient::clean_id("TT12"), "T12");
    assert_eq!(PhabricatorClient::clean_id(""), "");
    assert_eq!(PhabricatorClient::clean_id("12T"), "12T");
}

#[test]
fn test_create_new_client_with_invalid_pkcs12_path() {
    let mut config = dummy_config();
    config.cert_identity_config = Some(CertIdentityConfig {
        pkcs12_path: "/path/to/invalid/config".into(),
        pkcs12_password: "testpassword".into(),
    });

    let maybe_client = PhabricatorClient::new(
        config,
        Some(Err("No such file or directory (os error 2)".into())),
    );

    assert!(maybe_client.is_err());

    let err = maybe_client.err().unwrap();

    assert!(err
        .to_message()
        .contains("Failed to read pkcs12 from /path/to/invalid/config"));
}

#[test]
fn client_keeps_certificate_bytes() {
    let mut config = dummy_config();
    config.cert_identity_config = Some(CertIdentityConfig {
        pkcs12_path: "/cert.p12".into(),
        pkcs12_password: "pw".into(),
    });
    let client = PhabricatorClient::new(config, Some(Ok(vec![1, 2, 3]))).unwrap();
    assert_eq!(client.pkcs12_der, Some(vec![1, 2, 3]));
    assert_eq!(client.cert_identity_config.unwrap().pkcs12_password, "pw");
    let plain = PhabricatorClient::new(dummy_config(), Some(Err("ignored".into()))).unwrap();
    assert_eq!(plain.pkcs12_der, None);
}

#[test]
fn task_family_needs_a_parent() {
    assert_eq!(PhabricatorClient::task_family(None, vec![]), None);
    let child = TaskFamily { parent_task: task("2", "open"), children: vec![] };
    let fam = PhabricatorClient::task_family(Some(task("1", "open")), vec![child]).unwrap();
    assert_eq!(fam.parent_task.id, "1");
    assert_eq!(fam.children[0].parent_task.id, "2");
}

#[test]
fn parse_error_texts_are_exact() {
    let text = r#"{"result":{"data":{"x":1}}}"#;
    assert_eq!(
        PhabricatorClient::tasks_from_response(text).unwrap_err(),
        ErrorType::ParseError { message: format!("Cannot parse {}", text) }
    );
    let bad_item = r#"{"result":{"data":[{"id":"nine"}]}}"#;
    let e = ErrorType::ParseError { message: r#"Cannot parse {"id":"nine"}"#.into() };
    assert_eq!(PhabricatorClient::tasks_from_response(bad_item).unwrap_err(), e);
    assert_eq!(PhabricatorClient::task_from_response(bad_item).unwrap_err(), e);
    assert_eq!(PhabricatorClient::user_from_response(bad_item).unwrap_err(), e);
    let unreadable = PhabricatorClient::users_from_response("{x").unwrap_err();
    assert_eq!(PhabricatorClient::user_from_response("{x").unwrap_err(), unreadable);
}

#[test]
fn certificate_identity_error_text() {
    let err = PhabricatorClient::certificate_identity_error("/a.p12", "bad password");
    assert_eq!(
        err.to_message(),
        "Certificate identity path: /a.p12, error: bad password"
    );
}

#[test]
fn search_urls() {
    let client = PhabricatorClient::new(dummy_config(), None).unwrap();
    assert_eq!(client.user_search_url(), "http://localhost/api/user.search");
    assert_eq!(client.task_search_url(), "http://localhost/api/maniphest.search");
}

#[test]
fn users_search_form_fields() {
    let client = PhabricatorClient::new(dummy_config(), None).unwrap();
    let form = client.users_search_form(&vec!["PHID-USER-1", "PHID-USER-2"]);
    assert_eq!(
        pairs(&form),
        vec![
            ("api.token", "foo"),
            ("constraints[phids][0]", "PHID-USER-1"),
            ("constraints[phids][1]", "PHID-USER-2"),
        ]
    );
}

#[test]
fn tasks_search_form_cleans_ids() {
    let client = PhabricatorClient::new(dummy_config(), None).unwrap();
    let form = client.tasks_search_form(&vec!["T12", "34"]);
    assert_eq!(
        pairs(&form),
        vec![
            ("api.token", "foo"),
            ("order", "oldest"),
            ("attachments[columns]", "true"),
            ("attachments[projects]", "true"),
            ("constraints[ids][0]", "12"),
            ("constraints[ids][1]", "34"),
        ]
    );
}

#[test]
fn child_tasks_search_form_fields() {
    let client = PhabricatorClient::new(dummy_config(), None).unwrap();
    let ids: Vec<&str> = (0..12).map(|_| "T5").collect();
    let form = client.child_tasks_search_form(&ids).unwrap();
    assert_eq!(form.len(), 16);
    assert_eq!(pairs(&form[..2]), vec![("api.token", "foo"), ("constraints[parentIDs][0]", "5")]);
    assert_eq!(form[12].0, "constraints[parentIDs][11]");
    assert_eq!(
        pairs(&form[13..]),
        vec![
            ("order", "oldest"),
            ("attachments[columns]", "true"),
            ("attachments[projects]", "true"),
        ]
    );
}

#[test]
fn child_tasks_search_form_refuses_no_parent() {
    let client = PhabricatorClient::new(dummy_config(), None).unwrap();
    let err = client.child_tasks_search_form(&vec![]).unwrap_err();
    assert_eq!(
        err,
        ErrorType::ValidationError { message: "Parent ids cannot be empty".into() }
    );
    assert_eq!(err.to_message(), "Validation error: Parent ids cannot be empty");
}

#[test]
fn zero_results_give_empty_lists_and_none() {
    let text = r#"{"result": {"data": []}}"#;
    assert_eq!(PhabricatorClient::tasks_from_response(text).unwrap(), vec![]);
    assert_eq!(PhabricatorClient::users_from_response(text).unwrap(), vec![]);
    assert_eq!(PhabricatorClient::task_from_response(text).unwrap(), None);
    assert_eq!(PhabricatorClient::user_from_response(text).unwrap(), None);
}

#[test]
fn non_array_data_is_parse_error() {
    let text = r#"{"result": {"data": {"x": 1}}}"#;
    let err = PhabricatorClient::tasks_from_response(text).unwrap_err();
    match err {
        ErrorType::ParseError { message } => assert!(message.starts_with("Cannot parse ")),
        other => panic!("unexpected {:?}", other),
    }
    assert!(matches!(
        PhabricatorClient::users_from_response(r#"{"result": null}"#),
        Err(ErrorType::ParseError { .. })
    ));
}

#[test]
fn unreadable_text_is_parse_error() {
    assert!(matches!(
        PhabricatorClient::tasks_from_response("{not json"),
        Err(ErrorType::ParseError { .. })
    ));
}

#[test]
fn decodes_task_with_board_of_first_listed_project() {
    let v = Json::parse(TASK_JSON).unwrap();
    let t = Task::from_json(&v).unwrap();
    assert_eq!(t.id, "1234");
    assert_eq!(t.task_type, "TASK");
    assert_eq!(t.phid, "PHID-TASK-abc");
    assert_eq!(t.name, "Fix the login page");
    assert_eq!(t.description, "It breaks");
    assert_eq!(t.author_phid, "PHID-USER-1");
    assert_eq!(t.assigned_phid.as_deref(), Some("PHID-USER-2"));
    assert_eq!(t.status, "open");
    assert_eq!(t.priority, "High");
    assert_eq!(t.point, Some(3));
    assert_eq!(t.project_phids, vec!["PHID-PROJ-a", "PHID-PROJ-b", "PHID-PROJ-c"]);
    let board = t.board.unwrap();
    assert_eq!((board.id, board.phid.as_str(), board.name.as_str()), (7, "PHID-PCOL-7", "Doing"));
    assert_eq!((t.created_at, t.updated_at), (1600000000, 1600000500));
}

#[test]
fn no_listed_project_on_a_board_means_no_board() {
    let text = TASK_JSON.replace("\"PHID-PROJ-b\": {", "\"PHID-PROJ-z\": {");
    let t = Task::from_json(&Json::parse(&text).unwrap()).unwrap();
    assert_eq!(t.board, None);
}

#[test]
fn guess_board_takes_first_matching_project() {
    let boards = Json::parse(
        r#"{"proj-2": {"columns": [{"id": 2, "phid": "c2", "name": "Two"}]},
            "proj-3": {"columns": [{"id": 3, "phid": "c3", "name": "Three"}]}}"#,
    )
    .unwrap();
    let phids = vec!["proj-1".to_owned(), "proj-3".to_owned(), "proj-2".to_owned()];
    let b = Task::guess_board_from_projects(&boards, &phids).unwrap().unwrap();
    assert_eq!(b.name, "Three");
    let none = Task::guess_board_from_projects(&boards, &vec!["proj-9".to_owned()]).unwrap();
    assert_eq!(none, None);
}

#[test]
fn malformed_board_column_is_parse_error() {
    let boards = Json::parse(r#"{"proj-1": {"columns": []}}"#).unwrap();
    assert!(matches!(
        Task::guess_board_from_projects(&boards, &vec!["proj-1".to_owned()]),
        Err(ErrorType::ParseError { .. })
    ));
}

#[test]
fn task_missing_field_is_not_decoded() {
    let text = TASK_JSON.replace("\"id\": 1234,", "");
    assert_eq!(Task::from_json(&Json::parse(&text).unwrap()), None);
    let body = format!(r#"{{"result": {{"data": [{}]}}}}"#, text);
    assert!(matches!(
        PhabricatorClient::tasks_from_response(&body),
        Err(ErrorType::ParseError { .. })
    ));
}

#[test]
fn decodes_search_response_tasks_and_first() {
    let body = format!(r#"{{"result": {{"data": [{}]}}}}"#, TASK_JSON);
    let tasks = PhabricatorClient::tasks_from_response(&body).unwrap();
    assert_eq!(tasks.len(), 1);
    assert_eq!(tasks[0].id, "1234");
    let first = PhabricatorClient::task_from_response(&body).unwrap().unwrap();
    assert_eq!(first.name, "Fix the login page");
}

#[test]
fn decodes_users() {
    let body = r#"{"result": {"data": [
        {"id": 5, "phid": "PHID-USER-5", "fields": {"username": "ana", "realName": "Ana B",
         "dateCreated": 10, "dateModified": 11}},
        {"id": 6, "phid": "PHID-USER-6", "fields": {"username": "bo", "realName": "Bo C",
         "dateCreated": 12, "dateModified": 13}}
    ]}}"#;
    let users = PhabricatorClient::users_from_response(body).unwrap();
    assert_eq!(users.len(), 2);
    assert_eq!(users[0].id, "5");
    assert_eq!(users[1].username, "bo");
    assert_eq!(users[1].name, "Bo C");
    let first = PhabricatorClient::user_from_response(body).unwrap().unwrap();
    assert_eq!((first.phid.as_str(), first.created_at, first.updated_at), ("PHID-USER-5", 10, 11));
}

#[test]
fn assembles_families_when_all_fetches_succeed() {
    let leaf = TaskFamily { parent_task: task("3", "open"), children: vec![] };
    let families = PhabricatorClient::assemble_families(
        vec![task("1", "open"), task("2", "open")],
        vec![Ok(vec![leaf]), Ok(vec![])],
    )
    .unwrap();
    assert_eq!(families.len(), 2);
    assert_eq!(families[0].parent_task.id, "1");
    assert_eq!(families[0].children[0].parent_task.id, "3");
    assert_eq!(families[1].parent_task.id, "2");
    assert!(families[1].children.is_empty());
}

#[test]
fn failed_sibling_fetches_are_all_reported() {
    let e1 = ErrorType::FetchTaskError { message: "timeout".into() };
    let e3 = ErrorType::ParseError { message: "bad body".into() };
    let err = PhabricatorClient::assemble_families(
        vec![task("1", "open"), task("2", "open"), task("3", "open")],
        vec![Err(e1), Ok(vec![]), Err(e3)],
    )
    .unwrap_err();
    let expected = "\nFetch sub tasks error: Could not fetch sub tasks with parent id 1, err: Fetch task error: timeout\nFetch sub tasks error: Could not fetch sub tasks with parent id 3, err: Parse error: bad body";
    assert_eq!(err, ErrorType::FetchSubTasksError { message: expected.into() });
    let text = err.to_message();
    assert!(text.contains("Fetch task error: timeout"));
    assert!(text.contains("Parse error: bad body"));
}

#[test]
fn subtask_failure_text() {
    let e = PhabricatorClient::subtask_failure("9", &ErrorType::FetchTaskError { message: "x".into() });
    assert_eq!(
        e.to_message(),
        "Fetch sub tasks error: Could not fetch sub tasks with parent id 9, err: Fetch task error: x"
    );
}

#[test]
fn error_texts() {
    assert_eq!(
        ErrorType::FailToConfigureHttpClient { message: "m".into() }.to_message(),
        "Fail to configure http client, error: m"
    );
    assert_eq!(ErrorType::FetchSubTasksError { message: "m".into() }.to_message(), "Fetch sub tasks error: m");
}

#[test]
fn decodes_users_from_parsed_body() {
    let body = Json::parse(
        r#"{"result": {"data": [{"id": 9, "phid": "PHID-USER-9", "fields": {"username": "cy",
            "realName": "Cy D", "dateCreated": 1, "dateModified": 2}}]}}"#,
    )
    .unwrap();
    let users = PhabricatorClient::users_from_body(&body).unwrap();
    assert_eq!(users.len(), 1);
    assert_eq!((users[0].id.as_str(), users[0].username.as_str()), ("9", "cy"));
    let bad = Json::parse(r#"{"result": {"data": [{"id": "nine"}]}}"#).unwrap();
    assert!(matches!(PhabricatorClient::users_from_body(&bad), Err(ErrorType::ParseError { .. })));
}
