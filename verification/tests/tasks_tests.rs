use qiniu_sdk::tasks::{ReadAction, ReadOutcome, Task, TaskResult, TasksManager};

#[test]
fn a_full_buffer_makes_a_task_and_the_end_finishes() {
    let mut m = TasksManager::new();
    assert_eq!(m.begin_task(), ReadAction::ReadMore(0));
    assert_eq!(m.on_read(0, 8, ReadOutcome::Read(5)), ReadAction::ReadMore(5));
    assert_eq!(m.on_read(5, 8, ReadOutcome::Interrupted), ReadAction::ReadMore(5));
    assert_eq!(m.on_read(5, 8, ReadOutcome::Read(3)), ReadAction::Finish(Task::Upload(8)));
    assert_eq!(m.begin_task(), ReadAction::ReadMore(0));
    assert_eq!(m.on_read(0, 8, ReadOutcome::Read(2)), ReadAction::ReadMore(2));
    assert_eq!(m.on_read(2, 8, ReadOutcome::Read(0)), ReadAction::Finish(Task::Upload(2)));
    assert_eq!(m.begin_task(), ReadAction::Finish(Task::End));
    assert_eq!(m.result(), TaskResult::Success);
}

#[test]
fn an_empty_reader_gives_no_task() {
    let mut m = TasksManager::new();
    assert_eq!(m.on_read(0, 8, ReadOutcome::Read(0)), ReadAction::Finish(Task::End));
    assert_eq!(m.result(), TaskResult::Success);
}

#[test]
fn a_failed_read_ends_with_its_error() {
    let mut m = TasksManager::new();
    assert_eq!(
        m.on_read(3, 8, ReadOutcome::Failed("broken pipe".to_owned())),
        ReadAction::Finish(Task::End)
    );
    assert_eq!(m.begin_task(), ReadAction::Finish(Task::End));
    assert_eq!(m.result(), TaskResult::IOError("broken pipe".to_owned()));
}

#[test]
fn an_upload_error_stops_the_tasks() {
    let mut m = TasksManager::new();
    m.error("503".to_owned());
    assert_eq!(m.begin_task(), ReadAction::Finish(Task::End));
    assert_eq!(m.result(), TaskResult::HTTPError("503".to_owned()));
}
