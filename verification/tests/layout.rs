use blizzard::task::layout::{is_power_of_two, max, task_layout, Layout, TaskLayout};

#[test]
fn parts_without_padding() {
    let t = task_layout(
        Layout::from_size_align(24, 8),
        Layout::from_size_align(0, 1),
        Layout::from_size_align(16, 8),
        Layout::from_size_align(4, 4),
    );
    assert_eq!(
        t,
        Some(TaskLayout {
            layout: Layout { size: 40, align: 8 },
            offset_scheduler: 24,
            offset_future: 24,
            offset_output: 24,
        })
    );
}

#[test]
fn parts_with_padding() {
    let t = task_layout(
        Layout::from_size_align(20, 4),
        Layout::from_size_align(8, 8),
        Layout::from_size_align(1, 1),
        Layout::from_size_align(3, 2),
    )
    .unwrap();
    assert_eq!(t.offset_scheduler, 24);
    assert_eq!(t.offset_future, 32);
    assert_eq!(t.offset_output, 32);
    assert_eq!(t.layout, Layout { size: 35, align: 8 });
}

#[test]
fn bad_alignment_or_overflow_has_no_layout() {
    assert!(task_layout(
        Layout::from_size_align(8, 2),
        Layout::from_size_align(1, 3),
        Layout::from_size_align(1, 1),
        Layout::from_size_align(1, 1),
    )
    .is_none());
    assert!(task_layout(
        Layout::from_size_align(usize::MAX - 2, 1),
        Layout::from_size_align(8, 1),
        Layout::from_size_align(1, 1),
        Layout::from_size_align(1, 1),
    )
    .is_none());
}

#[test]
fn extend_and_padding() {
    let l = Layout::from_size_align(5, 4);
    assert_eq!(l.padding_needed_for(4), 3);
    assert_eq!(l.padding_needed_for(1), 0);
    assert_eq!(l.extend(Layout::from_size_align(2, 2)), Some((Layout { size: 8, align: 4 }, 6)));
    assert!(is_power_of_two(64));
    assert!(!is_power_of_two(0));
    assert!(!is_power_of_two(12));
    assert_eq!(max(3, 9), 9);
}
