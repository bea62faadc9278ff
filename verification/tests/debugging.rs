use blizzard::task::header::Header;
use blizzard::task::debugging::{aged_tasks, has_label, TaskDebugger, TaskInfo};

fn tracer() -> TaskDebugger<fn(Option<&'static str>) -> bool> {
    TaskDebugger::new(has_label as fn(Option<&'static str>) -> bool)
}

#[test]
fn default_filter_traces_labelled_tasks() {
    assert!(has_label(Some("x")));
    assert!(!has_label(None));
}

#[test]
fn labelled_task_is_traced_and_label_consumed() {
    let mut dbg = tracer();
    dbg.set_label("subtask-1");
    assert!(dbg.register(0x1000, &mut Header::new(())));
    assert_eq!(dbg.task_count(), 1);
    assert!(dbg.label.is_none());
    assert_eq!(dbg.registry.get(&0x1000).unwrap().label, Some("subtask-1"));
    assert!(!dbg.register(0x2000, &mut Header::new(())));
    assert_eq!(dbg.task_count(), 2);
    assert!(!dbg.registry.contains_key(&0x2000));
    dbg.unregister(0x1000);
    assert_eq!(dbg.task_count(), 1);
    assert!(dbg.registry.is_empty());
}

#[test]
fn custom_filter_traces_everything() {
    fn all(_: Option<&'static str>) -> bool {
        true
    }
    let mut dbg = tracer();
    dbg.set_filter(all);
    assert!(dbg.register(0x10, &mut Header::new(())));
    assert_eq!(dbg.registry.get(&0x10).unwrap().label, None);
}

#[test]
fn context_stack_tracks_traced_operations() {
    let mut dbg = tracer();
    dbg.set_label("task");
    assert!(dbg.register(0x40, &mut Header::new(())));
    assert!(dbg.enter(0x40, "run"));
    assert!(!dbg.enter(0x80, "schedule"));
    assert!(dbg.enter(0x40, "drop_waker"));
    assert_eq!(dbg.context, vec!["run", "drop_waker"]);
    dbg.leave();
    assert_eq!(dbg.context, vec!["run"]);
    dbg.leave();
    dbg.leave();
    assert!(dbg.context.is_empty());
    dbg.set_current_task(0x40);
    assert_eq!(dbg.current_task, Some(0x40));
}

#[test]
fn task_info_records_address_and_label() {
    let info = TaskInfo::new(0x99, Some("io"));
    assert_eq!(info.ptr, 0x99);
    assert_eq!(info.label, Some("io"));
}

#[test]
fn aged_tasks_are_those_above_the_threshold() {
    assert_eq!(aged_tasks(&vec![5, 50, 10, 11, 100], 10), vec![1, 3, 4]);
    assert!(aged_tasks(&vec![], 0).is_empty());
    assert!(aged_tasks(&vec![1, 2], 2).is_empty());
}

#[test]
fn registering_a_traced_task_marks_its_header() {
    let mut dbg = tracer();
    let mut traced = Header::new(());
    let mut plain = Header::new(());
    dbg.set_label("io");
    assert!(dbg.register(0x100, &mut traced));
    assert!(traced.debugging);
    assert!(!dbg.register(0x200, &mut plain));
    assert!(!plain.debugging);
}
