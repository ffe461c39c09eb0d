use waybar_events::notify::{default_target, notify_process, signal_plan, Notification};

#[test]
fn missing_process_is_not_an_error() {
    assert_eq!(signal_plan(None, 34, 13), Notification::NotRunning);
}

#[test]
fn running_process_gets_base_plus_offset() {
    assert_eq!(
        signal_plan(Some(4242), 34, 13),
        Notification::Deliver { pid: 4242, signal: 47 }
    );
    assert_eq!(
        signal_plan(Some(1), 35, 0),
        Notification::Deliver { pid: 1, signal: 35 }
    );
}

#[test]
fn pid_that_cannot_name_one_process() {
    assert_eq!(signal_plan(Some(0), 34, 13), Notification::Unaddressable { pid: 0 });
    assert_eq!(
        signal_plan(Some(u32::MAX), 34, 13),
        Notification::Unaddressable { pid: u32::MAX }
    );
    assert_eq!(
        signal_plan(Some(i32::MAX as u32), 34, 13),
        Notification::Deliver { pid: i32::MAX, signal: 47 }
    );
}

#[test]
fn signal_number_overflow() {
    assert_eq!(signal_plan(Some(7), i32::MAX, 1), Notification::SignalOutOfRange);
    assert_eq!(signal_plan(Some(7), i32::MIN, -1), Notification::SignalOutOfRange);
}

#[test]
fn default_target_is_status_bar() {
    let t = default_target();
    assert_eq!(t.executable, "waybar");
    assert_eq!(t.signal_offset, 13);
    assert_eq!(t.duplicate(), t);
}

#[test]
fn notifying_absent_process_does_not_fail() {
    let n = notify_process("no-such-process-9f3c1e", 13);
    assert_eq!(n, Notification::NotRunning);
}
