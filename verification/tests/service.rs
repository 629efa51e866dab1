use coordinator::digest::digest;
use coordinator::{Fault, Profile, ProfileId, Rpc, RpcImpl, Task, TaskId};

fn text(s: &str) -> String {
    String::from(s)
}

#[test]
fn end_to_end() {
    let mut rpc = RpcImpl::new();
    assert_eq!(rpc.create_profile(text("ci"), text("nightly"), text("{}")), Ok(ProfileId(1)));
    assert_eq!(rpc.create_task(ProfileId(1), text("out.log"), b"hello".to_vec()), Ok(TaskId(1)));
    let task = rpc.fetch_task(TaskId(1)).unwrap();
    assert_eq!(task.id, TaskId(1));
    assert_eq!(task.profile_id, ProfileId(1));
    assert_eq!(task.file_name, "out.log");
    assert_eq!(task.data, b"hello".to_vec());
    assert_eq!(
        task.digest,
        vec![
            0x12, 0x20, 0x2c, 0xf2, 0x4d, 0xba, 0x5f, 0xb0, 0xa3, 0x0e, 0x26, 0xe8, 0x3b, 0x2a,
            0xc5, 0xb9, 0xe2, 0x9e, 0x1b, 0x16, 0x1e, 0x5c, 0x1f, 0xa7, 0x42, 0x5e, 0x73, 0x04,
            0x33, 0x62, 0x93, 0x8b, 0x98, 0x24,
        ]
    );
}

#[test]
fn created_task_round_trips() {
    let mut rpc = RpcImpl::new();
    let profile = rpc.create_profile(text("b"), text("n"), text("{}")).unwrap();
    let payloads: Vec<Vec<u8>> = vec![vec![], vec![0], b"hello".to_vec(), vec![255; 1000]];
    for payload in payloads {
        let id = rpc.create_task(profile, text("f"), payload.clone()).unwrap();
        let task = rpc.fetch_task(id).unwrap();
        assert_eq!(task.data, payload);
        assert_eq!(digest(&task.data), task.digest);
        assert!(task.verify());
    }
}

#[test]
fn created_profile_round_trips() {
    let mut rpc = RpcImpl::new();
    let json = "{ \"steps\": [1, 2,  3] }";
    let id = rpc.create_profile(text("ci"), text("nightly"), text(json)).unwrap();
    assert_eq!(
        rpc.fetch_profile(id),
        Ok(Profile { id, base: text("ci"), name: text("nightly"), json: text(json) })
    );
}

#[test]
fn profile_name_is_unique() {
    let mut rpc = RpcImpl::new();
    assert_eq!(rpc.create_profile(text("b"), text("n"), text("{}")), Ok(ProfileId(1)));
    assert_eq!(rpc.create_profile(text("b"), text("n"), text("{}")), Err(Fault::Conflict));
    assert_eq!(rpc.create_profile(text("other"), text("n"), text("[1]")), Err(Fault::Conflict));
    assert_eq!(rpc.list_profiles(None), Ok(vec![ProfileId(1)]));
    assert_eq!(
        rpc.fetch_profile(ProfileId(1)),
        Ok(Profile { id: ProfileId(1), base: text("b"), name: text("n"), json: text("{}") })
    );
}

#[test]
fn refused_name_uses_no_identifier() {
    let mut rpc = RpcImpl::new();
    assert_eq!(rpc.create_profile(text("b"), text("n"), text("{}")), Ok(ProfileId(1)));
    assert_eq!(rpc.create_profile(text("b"), text("n"), text("{}")), Err(Fault::Conflict));
    assert_eq!(rpc.create_profile(text("b"), text("m"), text("{}")), Ok(ProfileId(2)));
}

#[test]
fn names_differ_by_case_and_space() {
    let mut rpc = RpcImpl::new();
    assert_eq!(rpc.create_profile(text("b"), text("n"), text("{}")), Ok(ProfileId(1)));
    assert_eq!(rpc.create_profile(text("b"), text("N"), text("{}")), Ok(ProfileId(2)));
    assert_eq!(rpc.create_profile(text("b"), text("n "), text("{}")), Ok(ProfileId(3)));
    assert_eq!(rpc.create_profile(text("b"), text(""), text("{}")), Ok(ProfileId(4)));
    assert_eq!(rpc.create_profile(text("b"), text(""), text("{}")), Err(Fault::Conflict));
}

#[test]
fn task_needs_an_existing_profile() {
    let mut rpc = RpcImpl::new();
    assert_eq!(
        rpc.create_task(ProfileId(999999), text("f"), b"x".to_vec()),
        Err(Fault::NotFound)
    );
    assert_eq!(rpc.list_tasks(None), Ok(vec![]));
    assert_eq!(rpc.create_profile(text("b"), text("n"), text("{}")), Ok(ProfileId(1)));
    assert_eq!(
        rpc.create_task(ProfileId(999999), text("f"), b"x".to_vec()),
        Err(Fault::NotFound)
    );
    assert_eq!(rpc.create_task(ProfileId(0), text("f"), b"x".to_vec()), Err(Fault::NotFound));
    assert_eq!(rpc.create_task(ProfileId(-1), text("f"), b"x".to_vec()), Err(Fault::NotFound));
    assert_eq!(rpc.create_task(ProfileId(2), text("f"), b"x".to_vec()), Err(Fault::NotFound));
    assert_eq!(rpc.list_tasks(None), Ok(vec![]));
    assert_eq!(rpc.fetch_task(TaskId(1)), Err(Fault::NotFound));
    assert_eq!(rpc.create_task(ProfileId(1), text("f"), b"x".to_vec()), Ok(TaskId(1)));
}

#[test]
fn profiles_are_listed_by_base() {
    let mut rpc = RpcImpl::new();
    let first = rpc.create_profile(text("a"), text("one"), text("{}")).unwrap();
    let second = rpc.create_profile(text("a"), text("two"), text("{}")).unwrap();
    let third = rpc.create_profile(text("b"), text("three"), text("{}")).unwrap();
    assert_eq!(rpc.list_profiles(Some(text("a"))), Ok(vec![first, second]));
    assert_eq!(rpc.list_profiles(Some(text("b"))), Ok(vec![third]));
    assert_eq!(rpc.list_profiles(Some(text("z"))), Ok(vec![]));
    assert_eq!(rpc.list_profiles(None), Ok(vec![first, second, third]));
}

#[test]
fn tasks_are_listed_by_profile() {
    let mut rpc = RpcImpl::new();
    let one = rpc.create_profile(text("a"), text("one"), text("{}")).unwrap();
    let two = rpc.create_profile(text("a"), text("two"), text("{}")).unwrap();
    let three = rpc.create_profile(text("a"), text("three"), text("{}")).unwrap();
    let t1 = rpc.create_task(two, text("f"), vec![1]).unwrap();
    let t2 = rpc.create_task(one, text("f"), vec![1]).unwrap();
    let t3 = rpc.create_task(two, text("g"), vec![2]).unwrap();
    assert_eq!(rpc.list_tasks(Some(two)), Ok(vec![t1, t3]));
    assert_eq!(rpc.list_tasks(Some(one)), Ok(vec![t2]));
    assert_eq!(rpc.list_tasks(Some(three)), Ok(vec![]));
    assert_eq!(rpc.list_tasks(Some(ProfileId(77))), Ok(vec![]));
    assert_eq!(rpc.list_tasks(None), Ok(vec![t1, t2, t3]));
}

#[test]
fn empty_service_lists_nothing() {
    let mut rpc = RpcImpl::new();
    assert_eq!(rpc.list_profiles(None), Ok(vec![]));
    assert_eq!(rpc.list_profiles(Some(text(""))), Ok(vec![]));
    assert_eq!(rpc.list_tasks(None), Ok(vec![]));
    assert_eq!(rpc.list_tasks(Some(ProfileId(1))), Ok(vec![]));
}

#[test]
fn missing_rows_are_not_found() {
    let mut rpc = RpcImpl::new();
    assert_eq!(rpc.fetch_profile(ProfileId(1)), Err(Fault::NotFound));
    assert_eq!(rpc.fetch_task(TaskId(1)), Err(Fault::NotFound));
    rpc.create_profile(text("a"), text("one"), text("{}")).unwrap();
    rpc.create_task(ProfileId(1), text("f"), vec![]).unwrap();
    assert_eq!(rpc.fetch_profile(ProfileId(0)), Err(Fault::NotFound));
    assert_eq!(rpc.fetch_profile(ProfileId(2)), Err(Fault::NotFound));
    assert_eq!(rpc.fetch_profile(ProfileId(i64::MIN)), Err(Fault::NotFound));
    assert_eq!(rpc.fetch_profile(ProfileId(i64::MAX)), Err(Fault::NotFound));
    assert_eq!(rpc.fetch_task(TaskId(0)), Err(Fault::NotFound));
    assert_eq!(rpc.fetch_task(TaskId(2)), Err(Fault::NotFound));
    assert_eq!(rpc.fetch_task(TaskId(-7)), Err(Fault::NotFound));
}

#[test]
fn identifiers_increase_and_are_not_reused() {
    let mut rpc = RpcImpl::new();
    let mut last = 0;
    for n in 0..20 {
        let id = rpc.create_profile(text("b"), format!("name-{}", n), text("{}")).unwrap();
        assert!(id.0 > last);
        last = id.0;
        assert_eq!(rpc.create_profile(text("b"), format!("name-{}", n), text("{}")), Err(Fault::Conflict));
    }
    assert_eq!(last, 20);
    let mut last_task = 0;
    for _ in 0..20 {
        assert_eq!(rpc.create_task(ProfileId(21), text("f"), vec![]), Err(Fault::NotFound));
        let id = rpc.create_task(ProfileId(20), text("f"), vec![]).unwrap();
        assert!(id.0 > last_task);
        last_task = id.0;
    }
    assert_eq!(last_task, 20);
}

#[test]
fn lookups_change_nothing() {
    let mut rpc = RpcImpl::new();
    rpc.create_profile(text("a"), text("one"), text("{}")).unwrap();
    rpc.create_task(ProfileId(1), text("f"), vec![3, 4]).unwrap();
    let before = rpc.fetch_task(TaskId(1));
    for _ in 0..3 {
        assert_eq!(rpc.list_profiles(None), Ok(vec![ProfileId(1)]));
        assert_eq!(rpc.list_tasks(None), Ok(vec![TaskId(1)]));
        assert_eq!(rpc.fetch_task(TaskId(1)), before);
    }
    assert_eq!(
        before,
        Ok(Task {
            id: TaskId(1),
            profile_id: ProfileId(1),
            file_name: text("f"),
            data: vec![3, 4],
            digest: digest(&[3, 4]),
        })
    );
}

#[test]
fn equal_payloads_get_separate_tasks_with_one_digest() {
    let mut rpc = RpcImpl::new();
    rpc.create_profile(text("a"), text("one"), text("{}")).unwrap();
    let first = rpc.create_task(ProfileId(1), text("f"), b"same".to_vec()).unwrap();
    let second = rpc.create_task(ProfileId(1), text("f"), b"same".to_vec()).unwrap();
    assert_ne!(first, second);
    let a = rpc.fetch_task(first).unwrap();
    let b = rpc.fetch_task(second).unwrap();
    assert_eq!(a.digest, b.digest);
    assert_eq!(a.data, b.data);
}
