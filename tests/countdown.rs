use bluetooth_timeout::configuration::Conf;
use bluetooth_timeout::notification::{Notification, NOTIFICATION_APP_NAME};
use bluetooth_timeout::timeout::{TimeoutTask, TimerStep};

#[test]
fn checkpoints_are_sorted_deduplicated_and_bounded() {
    let task = TimeoutTask::new(10_000, true, &vec![1_000, 5_000, 10_000, 5_000, 12_000, 3_000]);
    assert_eq!(task.checkpoints, vec![5_000, 3_000, 1_000]);
    assert_eq!(task.timeout, 10_000);
    assert!(task.notifications_enabled);
}

#[test]
fn steps_sleep_the_gaps_between_warnings() {
    let task = TimeoutTask::new(10_000, true, &vec![1_000, 5_000, 3_000]);
    assert_eq!(
        task.steps(),
        vec![
            TimerStep::Sleep(5_000),
            TimerStep::Warn(5_000),
            TimerStep::Sleep(2_000),
            TimerStep::Warn(3_000),
            TimerStep::Sleep(2_000),
            TimerStep::Warn(1_000),
            TimerStep::Sleep(1_000),
            TimerStep::PowerOff,
            TimerStep::NotifyOff,
        ]
    );
}

#[test]
fn warnings_strictly_decrease_and_each_comes_once() {
    let task = TimeoutTask::new(301_000, true, &vec![10_000, 300_000, 60_000, 30_000, 60_000]);
    let warns: Vec<u64> = task
        .steps()
        .into_iter()
        .filter_map(|s| match s {
            TimerStep::Warn(t) => Some(t),
            _ => None,
        })
        .collect();
    assert_eq!(warns, vec![300_000, 60_000, 30_000, 10_000]);
    let total: u64 = task
        .steps()
        .into_iter()
        .map(|s| match s {
            TimerStep::Sleep(ms) => ms,
            _ => 0,
        })
        .sum();
    assert_eq!(total, 301_000);
}

#[test]
fn no_checkpoints_sleeps_the_whole_timeout() {
    let task = TimeoutTask::new(7_000, true, &vec![]);
    assert_eq!(
        task.steps(),
        vec![TimerStep::Sleep(7_000), TimerStep::PowerOff, TimerStep::NotifyOff]
    );
    let task = TimeoutTask::new(7_000, true, &vec![7_000, 9_000]);
    assert_eq!(task.checkpoints, Vec::<u64>::new());
}

#[test]
fn disabled_notifications_only_sleep_and_power_off() {
    let task = TimeoutTask::new(10_000, false, &vec![5_000]);
    assert_eq!(task.steps(), vec![TimerStep::Sleep(10_000), TimerStep::PowerOff]);
}

#[test]
fn zero_checkpoint_warns_right_before_power_off() {
    let task = TimeoutTask::new(2_000, true, &vec![0]);
    assert_eq!(
        task.steps(),
        vec![
            TimerStep::Sleep(2_000),
            TimerStep::Warn(0),
            TimerStep::Sleep(0),
            TimerStep::PowerOff,
            TimerStep::NotifyOff,
        ]
    );
}

#[test]
fn cancel_during_last_sleep_prevents_power_off() {
    let task = TimeoutTask::new(10_000, true, &vec![5_000]);
    let mut cd = task.countdown(4);
    assert_eq!(cd.id, 4);
    assert_eq!(cd.next_step(), Some(TimerStep::Sleep(5_000)));
    assert_eq!(cd.next_step(), Some(TimerStep::Warn(5_000)));
    assert_eq!(cd.next_step(), Some(TimerStep::Sleep(5_000)));
    assert!(!cd.is_cancelled());
    cd.cancel();
    assert!(cd.is_cancelled());
    assert_eq!(cd.next_step(), None);
    assert_eq!(cd.pos, 3);
}

#[test]
fn uncancelled_countdown_ends() {
    let task = TimeoutTask::new(1_000, false, &vec![]);
    let mut cd = task.countdown(0);
    assert_eq!(cd.next_step(), Some(TimerStep::Sleep(1_000)));
    assert_eq!(cd.next_step(), Some(TimerStep::PowerOff));
    assert_eq!(cd.next_step(), None);
    assert_eq!(cd.next_step(), None);
}

#[test]
fn warning_names_the_remaining_time() {
    let n = TimeoutTask::warning_notification(5_000);
    assert_eq!(n.title, "Bluetooth Timeout Warning");
    assert_eq!(n.body, "Bluetooth adapter will turn off in 5s due to inactivity.");
    assert_eq!(n.icon, "bluetooth-symbolic");
    assert_eq!(n.app_name, NOTIFICATION_APP_NAME);
    let n = TimeoutTask::warning_notification(300_000);
    assert_eq!(n.body, "Bluetooth adapter will turn off in 5m due to inactivity.");
    let n = TimeoutTask::warning_notification(90_500);
    assert_eq!(n.body, "Bluetooth adapter will turn off in 1m 30s 500ms due to inactivity.");
}

#[test]
fn warning_with_given_text() {
    let n = TimeoutTask::warning_notification_with("1h");
    assert_eq!(n.body, "Bluetooth adapter will turn off in 1h due to inactivity.");
    assert_eq!(n.replaces_id, 0);
    assert_eq!(n.timeout, -1);
}

#[test]
fn powered_off_notification_texts() {
    let n = TimeoutTask::powered_off_notification();
    assert_eq!(n.title, "Bluetooth Adapter Turned Off");
    assert_eq!(n.body, "Bluetooth adapter has been turned off due to inactivity.");
    assert_eq!(n.icon, "bluetooth-disabled-symbolic");
}

#[test]
fn notification_builder_sets_each_field() {
    let n = Notification::new();
    assert_eq!(n.app_name, "bluetooth-timeout");
    assert_eq!(n.title, "");
    assert_eq!(n.body, "");
    assert_eq!(n.icon, "");
    assert_eq!(n.replaces_id, 0);
    assert_eq!(n.timeout, -1);
    let n = Notification::new()
        .app_name("other")
        .title("t")
        .body("b")
        .icon("dialog-information")
        .replaces_id(9)
        .timeout(0);
    assert_eq!(n.app_name, "other");
    assert_eq!(n.title, "t");
    assert_eq!(n.body, "b");
    assert_eq!(n.icon, "dialog-information");
    assert_eq!(n.replaces_id, 9);
    assert_eq!(n.timeout, 0);
}

#[test]
fn default_settings() {
    let conf = Conf::default();
    assert_eq!(conf.timeout, 301_000);
    assert!(conf.notifications_enabled);
    assert_eq!(conf.notifications_at, vec![300_000, 60_000, 30_000, 10_000]);
    assert_eq!(conf.dbus.service, "org.bluez");
    assert_eq!(conf.dbus.adapter_iface, "org.bluez.Adapter1");
    assert_eq!(conf.dbus.adapter_path, "/org/bluez/hci0");
    assert_eq!(conf.dbus.device_iface, "org.bluez.Device1");
    let task = conf.timeout_task();
    assert_eq!(task.checkpoints, vec![300_000, 60_000, 30_000, 10_000]);
    assert_eq!(task.steps()[0], TimerStep::Sleep(1_000));
}
