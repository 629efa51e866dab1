use coordinator::{Profile, ProfileId, Reply, Statement, Store, Task, TaskId};

fn insert_profile(base: &str, name: &str, json: &str) -> Statement {
    Statement::InsertProfile {
        base: String::from(base),
        name: String::from(name),
        json: String::from(json),
    }
}

fn insert_task(profile_id: i64, file_name: &str, data: &[u8], digest: &[u8]) -> Statement {
    Statement::InsertTask {
        profile_id,
        file_name: String::from(file_name),
        data: data.to_vec(),
        digest: digest.to_vec(),
    }
}

#[test]
fn empty_store_has_no_rows() {
    let mut store = Store::new();
    assert_eq!(store.execute(Statement::SelectProfileIds { by_base: None }), Reply::Ids(vec![]));
    assert_eq!(store.execute(Statement::SelectTaskIds { by_profile: None }), Reply::Ids(vec![]));
    assert_eq!(store.execute(Statement::SelectProfile { id: 1 }), Reply::Profiles(vec![]));
    assert_eq!(store.execute(Statement::SelectTask { id: 1 }), Reply::Tasks(vec![]));
}

#[test]
fn store_assigns_identifiers_from_one() {
    let mut store = Store::new();
    assert_eq!(store.execute(insert_profile("a", "alpha", "{}")), Reply::Ids(vec![1]));
    assert_eq!(store.execute(insert_profile("a", "beta", "{}")), Reply::Ids(vec![2]));
    assert_eq!(store.execute(insert_profile("b", "gamma", "{}")), Reply::Ids(vec![3]));
    assert_eq!(store.execute(insert_task(2, "f", b"x", b"d")), Reply::Ids(vec![1]));
    assert_eq!(store.execute(insert_task(2, "f", b"x", b"d")), Reply::Ids(vec![2]));
}

#[test]
fn store_refuses_a_taken_name() {
    let mut store = Store::new();
    assert_eq!(store.execute(insert_profile("a", "n", "{}")), Reply::Ids(vec![1]));
    assert_eq!(store.execute(insert_profile("b", "n", "[]")), Reply::UniqueViolation);
    assert_eq!(store.execute(Statement::SelectProfileIds { by_base: None }), Reply::Ids(vec![1]));
    assert_eq!(store.execute(insert_profile("b", "m", "[]")), Reply::Ids(vec![2]));
}

#[test]
fn store_refuses_a_task_without_profile() {
    let mut store = Store::new();
    assert_eq!(store.execute(insert_task(1, "f", b"x", b"d")), Reply::ForeignKeyViolation);
    assert_eq!(store.execute(insert_profile("a", "n", "{}")), Reply::Ids(vec![1]));
    assert_eq!(store.execute(insert_task(0, "f", b"x", b"d")), Reply::ForeignKeyViolation);
    assert_eq!(store.execute(insert_task(2, "f", b"x", b"d")), Reply::ForeignKeyViolation);
    assert_eq!(store.execute(insert_task(-1, "f", b"x", b"d")), Reply::ForeignKeyViolation);
    assert_eq!(store.execute(insert_task(i64::MAX, "f", b"x", b"d")), Reply::ForeignKeyViolation);
    assert_eq!(store.execute(Statement::SelectTaskIds { by_profile: None }), Reply::Ids(vec![]));
    assert_eq!(store.execute(insert_task(1, "f", b"x", b"d")), Reply::Ids(vec![1]));
}

#[test]
fn store_selects_rows_by_identifier() {
    let mut store = Store::new();
    store.execute(insert_profile("a", "n", "{\"k\": 1}"));
    store.execute(insert_task(1, "out.log", b"payload", b"digest"));
    assert_eq!(
        store.execute(Statement::SelectProfile { id: 1 }),
        Reply::Profiles(vec![Profile {
            id: ProfileId(1),
            base: String::from("a"),
            name: String::from("n"),
            json: String::from("{\"k\": 1}"),
        }])
    );
    assert_eq!(
        store.execute(Statement::SelectTask { id: 1 }),
        Reply::Tasks(vec![Task {
            id: TaskId(1),
            profile_id: ProfileId(1),
            file_name: String::from("out.log"),
            data: b"payload".to_vec(),
            digest: b"digest".to_vec(),
        }])
    );
    assert_eq!(store.execute(Statement::SelectProfile { id: 0 }), Reply::Profiles(vec![]));
    assert_eq!(store.execute(Statement::SelectProfile { id: 2 }), Reply::Profiles(vec![]));
    assert_eq!(store.execute(Statement::SelectProfile { id: -1 }), Reply::Profiles(vec![]));
    assert_eq!(store.execute(Statement::SelectTask { id: 0 }), Reply::Tasks(vec![]));
    assert_eq!(store.execute(Statement::SelectTask { id: 2 }), Reply::Tasks(vec![]));
    assert_eq!(store.execute(Statement::SelectTask { id: i64::MIN }), Reply::Tasks(vec![]));
}

#[test]
fn store_filters_identifiers() {
    let mut store = Store::new();
    store.execute(insert_profile("a", "alpha", "{}"));
    store.execute(insert_profile("b", "beta", "{}"));
    store.execute(insert_profile("a", "gamma", "{}"));
    store.execute(insert_task(3, "f1", b"", b""));
    store.execute(insert_task(1, "f2", b"", b""));
    store.execute(insert_task(3, "f3", b"", b""));
    let by_base = |base: &str| Statement::SelectProfileIds { by_base: Some(String::from(base)) };
    assert_eq!(store.execute(by_base("a")), Reply::Ids(vec![1, 3]));
    assert_eq!(store.execute(by_base("b")), Reply::Ids(vec![2]));
    assert_eq!(store.execute(by_base("")), Reply::Ids(vec![]));
    assert_eq!(store.execute(by_base("A")), Reply::Ids(vec![]));
    assert_eq!(store.execute(Statement::SelectProfileIds { by_base: None }), Reply::Ids(vec![1, 2, 3]));
    assert_eq!(store.execute(Statement::SelectTaskIds { by_profile: Some(3) }), Reply::Ids(vec![1, 3]));
    assert_eq!(store.execute(Statement::SelectTaskIds { by_profile: Some(1) }), Reply::Ids(vec![2]));
    assert_eq!(store.execute(Statement::SelectTaskIds { by_profile: Some(2) }), Reply::Ids(vec![]));
    assert_eq!(store.execute(Statement::SelectTaskIds { by_profile: Some(9) }), Reply::Ids(vec![]));
    assert_eq!(store.execute(Statement::SelectTaskIds { by_profile: None }), Reply::Ids(vec![1, 2, 3]));
}

#[test]
fn store_keeps_values_verbatim() {
    let mut store = Store::new();
    let json = "  { \"b\" : 1,\n\"a\":2 }  ";
    store.execute(insert_profile("", "", json));
    match store.execute(Statement::SelectProfile { id: 1 }) {
        Reply::Profiles(rows) => {
            assert_eq!(rows.len(), 1);
            assert_eq!(rows[0].json, json);
            assert_eq!(rows[0].base, "");
            assert_eq!(rows[0].name, "");
        }
        other => panic!("{:?}", other),
    }
}
