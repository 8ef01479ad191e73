use task_crud::common::{Task, UpdateTask};
use task_crud::outcome::Outcome;
use task_crud::store::FieldStore;
use task_crud::tasks::{create_task, delete_task, read_task, update_task};

fn sample_task(id: &str) -> Task {
    Task {
        id: id.to_owned(),
        title: "Test Task".to_owned(),
        author: "somebody".to_owned(),
        description: "Simple task".to_owned(),
    }
}

fn no_update() -> UpdateTask {
    UpdateTask { title: None, author: None, description: None }
}

#[test]
fn test_create_task_created() {
    let mut store = FieldStore::new();
    let task = sample_task("create_created");
    let outcome = create_task(&mut store, &task);
    assert_eq!(outcome, Outcome::Created("create_created".to_owned()));
}

#[test]
fn test_create_task_conflict() {
    let mut store = FieldStore::new();
    let task = sample_task("create_conflict");
    let outcome = create_task(&mut store, &task);
    assert_eq!(outcome, Outcome::Created("create_conflict".to_owned()));
    let outcome = create_task(&mut store, &task);
    assert_eq!(outcome, Outcome::Conflict("create_conflict".to_owned()));
}

#[test]
fn test_read_task_ok() {
    let mut store = FieldStore::new();
    let task = sample_task("read_ok");
    let outcome = create_task(&mut store, &task);
    assert_eq!(outcome, Outcome::Created("read_ok".to_owned()));
    let outcome = read_task(&store, &"read_ok".to_owned());
    assert_eq!(outcome, Outcome::Found(sample_task("read_ok")));
}

#[test]
fn test_read_task_not_found() {
    let store = FieldStore::new();
    let outcome = read_task(&store, &"read_not_found".to_owned());
    assert_eq!(outcome, Outcome::NotFound("read_not_found".to_owned()));
}

#[test]
fn test_update_task_ok() {
    let mut store = FieldStore::new();
    let task = sample_task("update_ok");
    let outcome = create_task(&mut store, &task);
    assert_eq!(outcome, Outcome::Created("update_ok".to_owned()));
    let update = UpdateTask { title: Some("New Test Task".to_owned()), ..no_update() };
    let outcome = update_task(&mut store, &"update_ok".to_owned(), &update);
    assert_eq!(outcome, Outcome::Updated("update_ok".to_owned()));
    let outcome = read_task(&store, &"update_ok".to_owned());
    let expected = Task { title: "New Test Task".to_owned(), ..sample_task("update_ok") };
    assert_eq!(outcome, Outcome::Found(expected));
}

#[test]
fn test_update_task_not_found() {
    let mut store = FieldStore::new();
    let update = UpdateTask { title: Some("New Test Task".to_owned()), ..no_update() };
    let outcome = update_task(&mut store, &"update_not_found".to_owned(), &update);
    assert_eq!(outcome, Outcome::NotFound("update_not_found".to_owned()));
}

#[test]
fn test_delete_task_ok() {
    let mut store = FieldStore::new();
    let task = sample_task("delete_ok");
    let outcome = create_task(&mut store, &task);
    assert_eq!(outcome, Outcome::Created("delete_ok".to_owned()));
    let outcome = delete_task(&mut store, &"delete_ok".to_owned());
    assert_eq!(outcome, Outcome::Deleted("delete_ok".to_owned()));
}

#[test]
fn test_delete_task_not_found() {
    let mut store = FieldStore::new();
    let outcome = delete_task(&mut store, &"delete_not_found".to_owned());
    assert_eq!(outcome, Outcome::NotFound("delete_not_found".to_owned()));
}

#[test]
fn test_crud_scenario() {
    let mut store = FieldStore::new();
    let task = Task {
        id: "t1".to_owned(),
        title: "Buy milk".to_owned(),
        author: "alice".to_owned(),
        description: "2%".to_owned(),
    };
    assert_eq!(create_task(&mut store, &task), Outcome::Created("t1".to_owned()));
    assert_eq!(read_task(&store, &"t1".to_owned()), Outcome::Found(task.clone()));
    let update = UpdateTask { author: Some("bob".to_owned()), ..no_update() };
    assert_eq!(update_task(&mut store, &"t1".to_owned(), &update), Outcome::Updated("t1".to_owned()));
    let expected = Task { author: "bob".to_owned(), ..task };
    assert_eq!(read_task(&store, &"t1".to_owned()), Outcome::Found(expected));
    assert_eq!(delete_task(&mut store, &"t1".to_owned()), Outcome::Deleted("t1".to_owned()));
    assert_eq!(read_task(&store, &"t1".to_owned()), Outcome::NotFound("t1".to_owned()));
}

#[test]
fn test_update_blank_title_is_no_op() {
    let mut store = FieldStore::new();
    let task = sample_task("blank_update");
    create_task(&mut store, &task);
    let update = UpdateTask { title: Some(String::new()), ..no_update() };
    let outcome = update_task(&mut store, &"blank_update".to_owned(), &update);
    assert_eq!(outcome, Outcome::Updated("blank_update".to_owned()));
    let outcome = read_task(&store, &"blank_update".to_owned());
    assert_eq!(outcome, Outcome::Found(sample_task("blank_update")));
}

#[test]
fn test_update_changes_only_supplied_field() {
    let mut store = FieldStore::new();
    let task = sample_task("partial_update");
    create_task(&mut store, &task);
    let update = UpdateTask { title: Some("Changed".to_owned()), ..no_update() };
    update_task(&mut store, &"partial_update".to_owned(), &update);
    let expected = Task { title: "Changed".to_owned(), ..sample_task("partial_update") };
    assert_eq!(read_task(&store, &"partial_update".to_owned()), Outcome::Found(expected));
}

#[test]
fn test_update_with_no_field_is_successful_no_op() {
    let mut store = FieldStore::new();
    let task = sample_task("empty_update");
    create_task(&mut store, &task);
    let outcome = update_task(&mut store, &"empty_update".to_owned(), &no_update());
    assert_eq!(outcome, Outcome::Updated("empty_update".to_owned()));
    assert_eq!(
        read_task(&store, &"empty_update".to_owned()),
        Outcome::Found(sample_task("empty_update"))
    );
}

#[test]
fn test_create_conflict_leaves_record_unchanged() {
    let mut store = FieldStore::new();
    let task = sample_task("keep_me");
    create_task(&mut store, &task);
    let intruder = Task {
        id: "keep_me".to_owned(),
        title: "Other".to_owned(),
        author: "other".to_owned(),
        description: "other".to_owned(),
    };
    assert_eq!(create_task(&mut store, &intruder), Outcome::Conflict("keep_me".to_owned()));
    assert_eq!(read_task(&store, &"keep_me".to_owned()), Outcome::Found(sample_task("keep_me")));
}

#[test]
fn test_operations_touch_only_their_id() {
    let mut store = FieldStore::new();
    create_task(&mut store, &sample_task("first"));
    create_task(&mut store, &sample_task("second"));
    let update = UpdateTask { author: Some("someone else".to_owned()), ..no_update() };
    update_task(&mut store, &"second".to_owned(), &update);
    delete_task(&mut store, &"second".to_owned());
    assert_eq!(read_task(&store, &"first".to_owned()), Outcome::Found(sample_task("first")));
}
