use phab::dto::{Task, Watchlist};
use phab::storage::{PhabStorage, PhabStorageFilesystem, PhabStorageFilesystemError};

fn test_db_path(name: &str) -> String {
    format!("/tmp/__phab_for_testing/db_{}/yo.json", name)
}

fn create_new(name: &str) -> PhabStorageFilesystem {
    let mut storage = PhabStorageFilesystem::new(&test_db_path(name));
    storage.reload(None).unwrap();
    storage
}

fn task(id: &str) -> Task {
    Task {
        id: id.to_owned(),
        task_type: "TASK".to_owned(),
        phid: format!("PHID-TASK-{}", id),
        name: format!("task \"{}\"", id),
        description: "line one\nline two".to_owned(),
        author_phid: "PHID-USER-1".to_owned(),
        assigned_phid: Some("PHID-USER-2".to_owned()),
        status: "open".to_owned(),
        priority: "High".to_owned(),
        point: Some(5),
        project_phids: vec!["PHID-PROJ-1".to_owned(), "PHID-PROJ-2".to_owned()],
        board: Some(phab::dto::Board { id: 3, phid: "PHID-PCOL-3".to_owned(), name: "Doing".to_owned() }),
        created_at: 1,
        updated_at: 2,
    }
}

#[test]
fn storage_fs_it_should_create_dir_and_load_data_for_first_time() {
    let mut storage = create_new("it_should_create_dir_and_load_data_for_first_time");

    let watchlists = storage.get_watchlists();

    assert_eq!(watchlists.len(), 0);
    assert_eq!(storage.document_text(), r#"{"watchlists":{}}"#);
    storage.reload(Some(r#"{"watchlists":{}}"#)).unwrap();
    assert_eq!(storage.get_watchlists().len(), 0);
}

#[test]
fn it_should_insert_data() {
    let mut storage = create_new("it_should_insert_data");
    let watchlist = Watchlist {
        id: None,
        name: String::from("hey ho test watchlist"),
        tasks: vec![],
    };

    storage.create_watchlist(&watchlist);
    let watchlists = storage.get_watchlists();

    assert_eq!(watchlists.len(), 1);
    assert_eq!(
        watchlists.get(0).unwrap().id.as_ref().unwrap(),
        "hey-ho-test-watchlist"
    );

    // Reloading the data that was written gives the same table.
    let text = storage.document_text();
    storage.reload(Some(&text)).unwrap();
    let watchlists = storage.get_watchlists();
    assert_eq!(watchlists.len(), 1);
    assert_eq!(
        watchlists.get(0).unwrap().id.as_ref().unwrap(),
        "hey-ho-test-watchlist"
    );
}

#[test]
fn it_insert_data() {
    let mut storage = PhabStorageFilesystem::new("/tmp/__phab_for_testing/db");
    storage.reload(None).unwrap();
    let watchlist = Watchlist {
        id: None,
        name: String::from("hey ho test watchlist"),
        tasks: vec![],
    };

    let created = storage.create_watchlist(&watchlist);
    assert_eq!(created.id.as_deref(), Some("hey-ho-test-watchlist"));
    let watchlists = storage.get_watchlists();

    assert_eq!(watchlists.len(), 1);
    assert_eq!(
        watchlists.get(0).unwrap().id.as_ref().unwrap(),
        "hey-ho-test-watchlist"
    );
    assert_eq!(storage.filepath(), "/tmp/__phab_for_testing/db");
}

#[test]
fn it_should_add_to_watchlist() {
    let mut storage = create_new("it_should_add_to_watchlist");
    let watchlist = Watchlist {
        id: None,
        name: String::from("hey ho test watchlist"),
        tasks: vec![],
    };

    let task_1 = task("foo");
    let task_2 = task("Bar");

    let watchlist = storage.create_watchlist(&watchlist);
    let watchlist_id = watchlist.id.unwrap();
    storage.add_to_watchlist(&watchlist_id, &task_1).unwrap();
    storage.add_to_watchlist(&watchlist_id, &task_2).unwrap();

    let watchlist = storage.get_watchlist_by_id(&watchlist_id);

    assert!(watchlist.is_some());

    let tasks: Vec<Task> = watchlist.unwrap().tasks;

    assert_eq!(tasks.len(), 2);
    assert_eq!(tasks.get(0).unwrap().id, "foo");
    assert_eq!(tasks.get(1).unwrap().id, "Bar");
}

#[test]
fn reload_from_written_text_preserves_everything() {
    let mut storage = create_new("reload_round_trip");
    let created = storage.create_watchlist(&Watchlist { id: None, name: "hey ho test watchlist".into(), tasks: vec![] });
    let id = created.id.unwrap();
    storage.add_to_watchlist(&id, &task("foo")).unwrap();
    storage.add_to_watchlist(&id, &task("Bar")).unwrap();
    let mut bare = task("baz");
    bare.assigned_phid = None;
    bare.point = None;
    bare.board = None;
    storage.create_watchlist(&Watchlist { id: None, name: "Second list".into(), tasks: vec![bare] });
    let before = storage.get_watchlists();

    let text = storage.document_text();
    let mut reopened = PhabStorageFilesystem::new(&test_db_path("reload_round_trip"));
    reopened.reload(Some(&text)).unwrap();

    let mut after = reopened.get_watchlists();
    let mut expected = before.clone();
    after.sort_by(|a, b| a.id.cmp(&b.id));
    expected.sort_by(|a, b| a.id.cmp(&b.id));
    assert_eq!(after, expected);
    assert_eq!(reopened.get_watchlist_by_id("hey-ho-test-watchlist").unwrap().tasks[1].id, "Bar");
}

#[test]
fn create_watchlist_overwrites_same_slug() {
    let mut storage = create_new("overwrite");
    storage.create_watchlist(&Watchlist { id: None, name: "My List".into(), tasks: vec![task("a")] });
    let second = storage.create_watchlist(&Watchlist { id: Some("ignored".into()), name: "my list".into(), tasks: vec![] });
    assert_eq!(second.id.as_deref(), Some("my-list"));
    let all = storage.get_watchlists();
    assert_eq!(all.len(), 1);
    assert_eq!(all[0].name, "my list");
    assert!(all[0].tasks.is_empty());
}

#[test]
fn add_to_missing_watchlist_is_query_error() {
    let mut storage = create_new("missing");
    let err = storage.add_to_watchlist("nope", &task("a")).unwrap_err();
    assert_eq!(
        err,
        PhabStorageFilesystemError::QueryError { message: "Watchlist not found: nope".into() }
    );
    assert_eq!(storage.get_watchlist_by_id("nope"), None);
    assert_eq!(
        PhabStorageFilesystemError::query_error("boom"),
        PhabStorageFilesystemError::QueryError { message: "boom".into() }
    );
}

#[test]
fn malformed_document_is_decode_error_and_keeps_table() {
    let mut storage = create_new("malformed");
    storage.create_watchlist(&Watchlist { id: None, name: "keep".into(), tasks: vec![] });
    for text in [r#"{"watchlists": []}"#, "{oops", r#"{"watchlists": {"a": {"name": 3}}}"#] {
        assert!(matches!(
            storage.reload(Some(text)),
            Err(PhabStorageFilesystemError::DecodeError { .. })
        ));
        assert_eq!(storage.get_watchlists().len(), 1);
    }
}

#[test]
fn storage_trait_operations() {
    fn use_trait<S: PhabStorage>(s: &mut S) -> usize {
        let w = s.create_watchlist(&Watchlist { id: None, name: "via trait".into(), tasks: vec![] });
        s.add_to_watchlist(w.id.as_deref().unwrap(), &task("t")).unwrap();
        s.get_watchlist_by_id("via-trait").unwrap().tasks.len() + s.get_watchlists().len()
    }
    let mut storage = create_new("trait");
    assert_eq!(use_trait(&mut storage), 2);
}

#[test]
fn watchlist_table_is_keyed_by_slug() {
    let mut storage = create_new("table");
    storage.create_watchlist(&Watchlist { id: None, name: "Alpha Beta".into(), tasks: vec![] });
    storage.create_watchlist(&Watchlist { id: None, name: "gamma".into(), tasks: vec![] });
    let keys: Vec<&str> = storage.watchlist_table().iter().map(|(k, _)| k.as_str()).collect();
    assert_eq!(keys, vec!["alpha-beta", "gamma"]);
}
