use std::collections::HashMap;
use tacky_borders::komorebi::{
    borders_to_notify, read_notification, subscribe_retry, ContainerState, KomorebiIntegration,
    Notification, NotificationError, WindowKind, WorkspaceState,
};

const WORKSPACE: &str = r#"{
    "monocle_container": null,
    "containers": {
        "elements": [
            {"windows": {"elements": [{"hwnd": 101}, {"hwnd": 102}], "focused": 1}},
            {"windows": {"elements": [{"hwnd": 103}], "focused": 0}}
        ],
        "focused": 0
    },
    "floating_windows": {"elements": [{"hwnd": 104}, {"hwnd": -5}]}
}"#;

fn document(focused_monitor: usize, workspaces: &[&str]) -> String {
    let monitors: Vec<String> = workspaces
        .iter()
        .map(|workspace| {
            format!("{{\"workspaces\": {{\"elements\": [{workspace}], \"focused\": 0}}}}")
        })
        .collect();
    format!(
        "{{\"event\": {{}}, \"state\": {{\"monitors\": {{\"elements\": [{}], \"focused\": {focused_monitor}}}}}}}",
        monitors.join(",")
    )
}

fn read(text: &str) -> Result<Notification, NotificationError> {
    read_notification(text.as_bytes(), text.len() as u32)
}

fn stacked(hwnd: isize, is_focused: bool, window_count: usize) -> ContainerState {
    ContainerState { is_focused, window_count, tracking_hwnd: hwnd }
}

#[test]
fn notifications_say_what_lies_on_each_monitor() {
    let notification = read(&document(0, &[WORKSPACE])).unwrap();
    assert_eq!(notification.focused_monitor, 0);
    assert_eq!(notification.monitors.len(), 1);
    let workspace = notification.monitors[0].as_ref().unwrap();
    assert_eq!(workspace.monocle, None);
    assert_eq!(workspace.containers, vec![stacked(102, true, 2), stacked(103, false, 1)]);
    assert_eq!(workspace.floating, vec![104, -5]);
}

#[test]
fn only_the_received_bytes_are_read() {
    let text = document(0, &[WORKSPACE]);
    let mut buffer = text.clone().into_bytes();
    buffer.extend_from_slice(b"left over from before");
    assert!(read_notification(&buffer, text.len() as u32).is_ok());
    assert!(matches!(
        read_notification(&buffer, buffer.len() as u32),
        Err(NotificationError::NotJson)
    ));
    assert!(matches!(read_notification(&buffer, 0), Err(NotificationError::NotJson)));
}

#[test]
fn a_focused_workspace_out_of_range_is_passed_over() {
    let text = r#"{"state": {"monitors": {"focused": 3, "elements": [
        {"workspaces": {"elements": [], "focused": 2}}
    ]}}}"#;
    let notification = read(text).unwrap();
    assert_eq!(notification.focused_monitor, 3);
    assert!(notification.monitors[0].is_none());
}

#[test]
fn documents_that_lack_something_are_malformed() {
    let malformed = |text: &str| matches!(read(text), Err(NotificationError::Malformed));
    assert!(malformed("null"));
    assert!(malformed("[]"));
    assert!(malformed("{}"));
    assert!(malformed(r#"{"state": {"monitors": {"focused": 0}}}"#));
    assert!(malformed(r#"{"state": {"monitors": {"elements": []}}}"#));
    assert!(malformed(r#"{"state": {"monitors": {"focused": -1, "elements": []}}}"#));
    assert!(malformed(r#"{"state": {"monitors": {"focused": 1.5, "elements": []}}}"#));
    assert!(malformed(
        r#"{"state": {"monitors": {"focused": 0, "elements": [{"workspaces": {"elements": []}}]}}}"#
    ));
    assert!(malformed(&document(0, &["{}"])));
    assert!(malformed(&document(
        0,
        &[r#"{"containers": {"elements": []}, "floating_windows": {"elements": [{"hwnd": "x"}]}}"#]
    )));
    assert!(malformed(&document(
        0,
        &[r#"{"containers": {"elements": [{"windows": {"elements": [{"hwnd": 1}], "focused": 1}}], "focused": 0},
             "floating_windows": {"elements": []}}"#]
    )));
    assert!(malformed(&document(
        0,
        &[r#"{"monocle_container": {"windows": {"elements": []}},
             "containers": {"elements": []}, "floating_windows": {"elements": []}}"#]
    )));
    assert!(malformed(&document(
        0,
        &[r#"{"containers": {"elements": []}, "floating_windows": {"elements": [{"hwnd": 9223372036854775808}]}}"#]
    )));
    assert!(!malformed(r#"{"state": {"monitors": {"focused": 0, "elements": []}}}"#));
    assert!(!malformed(&document(
        0,
        &[r#"{"containers": {"elements": []}, "floating_windows": {"elements": []}}"#]
    )));
}

#[test]
fn the_first_of_two_equal_keys_counts() {
    let text = r#"{"state": {"monitors": {"focused": 1, "focused": 2, "elements": []}}}"#;
    assert_eq!(read(text).unwrap().focused_monitor, 1);
}

#[test]
fn windows_get_the_part_that_they_play() {
    let notification = read(&document(0, &[WORKSPACE, WORKSPACE])).unwrap();
    let borders: HashMap<isize, isize> = HashMap::from([(102, 1002), (103, 1003), (999, 1999)]);

    let mut integration = KomorebiIntegration::new();
    let notified = integration.process_komorebi_notification(
        &notification,
        104,
        &vec![102, 102],
        &borders,
    );
    // The second monitor is not focused, and speaks last of its windows.
    assert_eq!(integration.focus_state.get(&102), Some(&WindowKind::Unfocused));
    assert_eq!(integration.focus_state.get(&103), Some(&WindowKind::Unfocused));
    assert_eq!(integration.focus_state.get(&104), Some(&WindowKind::Floating));
    assert_eq!(integration.focus_state.get(&-5), Some(&WindowKind::Unfocused));
    assert_eq!(integration.focus_state.get(&101), None);
    assert_eq!(integration.focus_state.len(), 4);
    let mut notified = notified;
    notified.sort();
    assert_eq!(notified, vec![(102, 1002), (103, 1003)]);
}

#[test]
fn the_foreground_decides_between_stacked_and_unfocused() {
    let notification = read(&document(0, &[WORKSPACE])).unwrap();
    let borders: HashMap<isize, isize> = HashMap::from([(102, 1002), (103, 1003)]);

    let mut integration = KomorebiIntegration::new();
    integration.process_komorebi_notification(&notification, 102, &vec![102], &borders);
    assert_eq!(integration.focus_state.get(&102), Some(&WindowKind::Stack));
    assert_eq!(integration.focus_state.get(&103), Some(&WindowKind::Unfocused));

    let notified =
        integration.process_komorebi_notification(&notification, 104, &vec![104], &borders);
    assert_eq!(integration.focus_state.get(&102), Some(&WindowKind::Unfocused));
    assert_eq!(notified, vec![(102, 1002)]);
}

#[test]
fn single_windows_change_without_a_message() {
    let workspace = r#"{
        "containers": {"elements": [{"windows": {"elements": [{"hwnd": 7}], "focused": 0}}], "focused": 0},
        "floating_windows": {"elements": []}
    }"#;
    let notification = read(&document(0, &[workspace])).unwrap();
    let borders: HashMap<isize, isize> = HashMap::from([(7, 70)]);
    let mut integration = KomorebiIntegration::new();
    let first = integration.process_komorebi_notification(&notification, 7, &vec![7], &borders);
    assert_eq!(integration.focus_state.get(&7), Some(&WindowKind::Single));
    assert_eq!(first, vec![(7, 70)]);
    let second = integration.process_komorebi_notification(&notification, 8, &vec![8], &borders);
    assert_eq!(integration.focus_state.get(&7), Some(&WindowKind::Unfocused));
    assert!(second.is_empty());
}

#[test]
fn a_repeated_notification_tells_nobody() {
    let notification = read(&document(0, &[WORKSPACE])).unwrap();
    let borders: HashMap<isize, isize> = HashMap::from([(102, 1002), (104, 1004)]);
    let mut integration = KomorebiIntegration::new();
    integration.process_komorebi_notification(&notification, 104, &vec![102], &borders);
    let before = integration.focus_state.clone();
    let again = integration.process_komorebi_notification(&notification, 104, &vec![102], &borders);
    assert!(again.is_empty());
    assert_eq!(integration.focus_state, before);
}

#[test]
fn monocle_windows_belong_to_the_focused_monitor() {
    let workspace = r#"{
        "monocle_container": {"windows": {"elements": [{"hwnd": 30}], "focused": 0}},
        "containers": {"elements": []},
        "floating_windows": {"elements": []}
    }"#;
    let borders: HashMap<isize, isize> = HashMap::new();
    let mut integration = KomorebiIntegration::new();
    let focused = read(&document(0, &[workspace])).unwrap();
    integration.process_komorebi_notification(&focused, 0, &vec![0], &borders);
    assert_eq!(integration.focus_state.get(&30), Some(&WindowKind::Monocle));
    let elsewhere = read(&document(1, &[workspace])).unwrap();
    integration.process_komorebi_notification(&elsewhere, 30, &vec![30], &borders);
    assert_eq!(integration.focus_state.get(&30), Some(&WindowKind::Unfocused));
}

#[test]
fn unmentioned_windows_keep_their_part() {
    let mut integration = KomorebiIntegration::new();
    integration.focus_state.insert(500, WindowKind::Floating);
    let notification = Notification {
        focused_monitor: 0,
        monitors: vec![
            None,
            Some(WorkspaceState { monocle: Some(1), containers: vec![], floating: vec![1] }),
        ],
    };
    let borders: HashMap<isize, isize> = HashMap::from([(500, 5000)]);
    let notified =
        integration.process_komorebi_notification(&notification, 1, &vec![1, 1], &borders);
    assert_eq!(integration.focus_state.get(&500), Some(&WindowKind::Floating));
    assert_eq!(integration.focus_state.get(&1), Some(&WindowKind::Floating));
    assert!(notified.is_empty());
}

#[test]
fn windows_that_are_gone_are_forgotten() {
    let mut integration = KomorebiIntegration::new();
    for hwnd in 1..5 {
        integration.focus_state.insert(hwnd, WindowKind::Single);
    }
    integration.prune(&vec![2, 4, 2, 77]);
    let mut left: Vec<isize> = integration.focus_state.keys().copied().collect();
    left.sort();
    assert_eq!(left, vec![1, 3]);
}

#[test]
fn borders_are_told_of_windows_that_appear_and_vanish() {
    let before: HashMap<isize, WindowKind> = HashMap::from([(1, WindowKind::Single)]);
    let after: HashMap<isize, WindowKind> = HashMap::from([(2, WindowKind::Unfocused)]);
    let borders: HashMap<isize, isize> = HashMap::from([(1, 11), (2, 22), (3, 33)]);
    let mut notified = borders_to_notify(&before, &after, &borders);
    notified.sort();
    assert_eq!(notified, vec![(1, 11), (2, 22)]);
}

#[test]
fn komorebi_is_asked_until_it_answers() {
    assert_eq!(subscribe_retry(false), Some(15));
    assert_eq!(subscribe_retry(true), None);
}
