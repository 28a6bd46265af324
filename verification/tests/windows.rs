use tacky_borders::borders::{
    adapters_watcher_step, after_recreation, distinct_thread_ids, foreground_changed, invalid_windows,
    needs_recreation, show_border_for_window, wait_for_threads_failed, AdapterLuid, AdaptersStep,
    AppState, Borders, ShowStep, WAIT_ABANDONED_0, WAIT_FAILED, WAIT_OBJECT_0,
};
use tacky_borders::text::wide_with_nul;
use tacky_borders::watch::{read_record, ConfigWatcher};
use tacky_borders::window::{
    adapter_name, are_rects_same_size, asks_about_instance, class_registration_failed,
    get_window_class, get_window_title, has_filtered_style, has_native_border,
    is_unwanted_instance, is_window_cloaked, is_window_top_level, may_be_truncated, Rect,
    WindowTextError, ERROR_ALREADY_EXISTS, ERROR_CLASS_ALREADY_EXISTS, ERROR_ENVVAR_NOT_FOUND,
    ERROR_INVALID_WINDOW_HANDLE, ERROR_SUCCESS, IDNO, WS_CHILD, WS_EX_NOACTIVATE,
    WS_EX_TOOLWINDOW, WS_EX_WINDOWEDGE, WS_MAXIMIZE,
};

#[test]
fn styles_are_tested_bit_by_bit() {
    assert!(is_window_top_level(0));
    assert!(!is_window_top_level(WS_CHILD | 1));
    assert!(!has_filtered_style(0));
    assert!(has_filtered_style(WS_EX_TOOLWINDOW));
    assert!(has_filtered_style(WS_EX_NOACTIVATE | WS_EX_WINDOWEDGE));
    assert!(has_native_border(0, WS_EX_WINDOWEDGE));
    assert!(!has_native_border(WS_MAXIMIZE, WS_EX_WINDOWEDGE));
    assert!(!has_native_border(0, 0));
}

#[test]
fn windows_of_unknown_state_count_as_shown() {
    assert!(!is_window_cloaked(None));
    assert!(!is_window_cloaked(Some(0)));
    assert!(is_window_cloaked(Some(2)));
}

#[test]
fn rectangles_are_compared_by_size() {
    let here = Rect { left: -10, top: 0, right: 20, bottom: 5 };
    let there = Rect { left: 100, top: 7, right: 130, bottom: 12 };
    let other = Rect { left: 100, top: 7, right: 130, bottom: 13 };
    assert_eq!(here.size(), (30, 5));
    assert!(are_rects_same_size(&here, &there));
    assert!(!are_rects_same_size(&here, &other));
    assert!(here.can_measure());
    assert!(!Rect { left: i32::MIN, top: 0, right: 1, bottom: 0 }.can_measure());
}

fn buffer(text: &str) -> [u16; 256] {
    let mut buffer = [0u16; 256];
    for (place, unit) in buffer.iter_mut().zip(text.encode_utf16()) {
        *place = unit;
    }
    buffer
}

#[test]
fn titles_end_at_the_first_zero() {
    let title = buffer("Ünïcode 😀\0behind");
    assert_eq!(get_window_title(10, ERROR_SUCCESS, &title), Ok("Ünïcode 😀".to_string()));
    assert_eq!(get_window_class(10, 5, &buffer("Shell_TrayWnd")), Ok("Shell_TrayWnd".to_string()));
    assert_eq!(get_window_title(3, 0, &[65, 0xD800, 0]), Ok("A\u{FFFD}".to_string()));
}

#[test]
fn texts_for_the_system_read_back() {
    for text in ["", "plain", "né😀"] {
        assert_eq!(get_window_title(1, 0, &wide_with_nul(text)), Ok(text.to_string()));
    }
}

#[test]
fn unpaired_surrogates_are_replaced_one_by_one() {
    let title = |units: &[u16]| get_window_title(1, 0, units).unwrap();
    assert_eq!(title(&[0xD834, 0xDD1E, 0x6D, 0xDD1E, 0x69, 0xD834, 0]), "𝄞m\u{FFFD}i\u{FFFD}");
    assert_eq!(title(&[0xD834, 0xD834, 0xDD1E, 0]), "\u{FFFD}𝄞");
    assert_eq!(title(&[0xDC00, 0xD800, 0]), "\u{FFFD}\u{FFFD}");
    assert_eq!(title(&[0xD7FF, 0xE000, 0xFFFF, 0]), "\u{D7FF}\u{E000}\u{FFFF}");
    assert_eq!(adapter_name(&[0xDBFF, 0xDFFF, 0xDBFF]), "\u{10FFFF}\u{FFFD}");
}

#[test]
fn empty_titles_are_no_failure() {
    let empty = buffer("");
    for harmless in [ERROR_ENVVAR_NOT_FOUND, ERROR_SUCCESS, ERROR_INVALID_WINDOW_HANDLE] {
        assert_eq!(get_window_title(0, harmless, &empty), Ok(String::new()));
        assert_eq!(get_window_class(0, harmless, &empty), Ok(String::new()));
    }
    assert_eq!(get_window_title(0, 5, &empty), Err(WindowTextError::Os(5)));
    assert_eq!(get_window_class(0, 5, &empty), Err(WindowTextError::Os(5)));
    assert_eq!(get_window_title(1, 5, &[65]), Err(WindowTextError::Unterminated));
}

#[test]
fn paths_that_fill_their_room_may_be_cut() {
    assert!(!may_be_truncated(254, 256));
    assert!(may_be_truncated(255, 256));
    assert!(may_be_truncated(256, 256));
}

#[test]
fn adapter_names_end_at_a_zero_or_with_their_field() {
    assert_eq!(adapter_name(&buffer("Radeon")), "Radeon");
    assert_eq!(adapter_name(&[65, 66]), "AB");
    assert_eq!(adapter_name(&[0, 66]), "");
}

#[test]
fn texts_for_the_system_end_with_a_zero() {
    assert_eq!(wide_with_nul(""), vec![0]);
    let expected: Vec<u16> = "né😀".encode_utf16().chain(std::iter::once(0)).collect();
    assert_eq!(wide_with_nul("né😀"), expected);
}

#[test]
fn a_known_class_will_do() {
    assert!(!class_registration_failed(7, 5));
    assert!(!class_registration_failed(0, ERROR_CLASS_ALREADY_EXISTS));
    assert!(class_registration_failed(0, 5));
}

#[test]
fn a_second_instance_ends_if_the_user_says_no() {
    assert!(!asks_about_instance(false, 0));
    assert!(asks_about_instance(false, ERROR_ALREADY_EXISTS));
    assert!(asks_about_instance(true, 5));
    assert!(is_unwanted_instance(false, ERROR_ALREADY_EXISTS, Some(IDNO)));
    assert!(!is_unwanted_instance(false, ERROR_ALREADY_EXISTS, Some(6)));
    assert!(!is_unwanted_instance(false, 0, Some(IDNO)));
    assert!(!is_unwanted_instance(true, 5, None));
}

#[test]
fn a_window_keeps_its_border() {
    let mut borders = Borders::new();
    assert_eq!(borders.get_border_for_window(1), None);
    assert!(borders.insert(1, 10));
    assert!(!borders.insert(1, 11));
    assert!(borders.insert(2, 20));
    assert_eq!(borders.get_border_for_window(1), Some(10));
    let mut windows = borders.windows();
    windows.sort();
    assert_eq!(windows, vec![1, 2]);
    let mut entries = borders.entries();
    entries.sort();
    assert_eq!(entries, vec![(1, 10), (2, 20)]);
    borders.remove(1);
    borders.remove(7);
    assert_eq!(borders.get_border_for_window(1), None);
    assert_eq!(borders.get_border_for_window(2), Some(20));
}

#[test]
fn open_windows_are_noted() {
    let mut state = AppState::new(5);
    assert_eq!(state.active_window, 5);
    assert!(state.create_borders_callback(1, true, true, false));
    assert!(!state.create_borders_callback(2, true, true, true));
    assert!(!state.create_borders_callback(3, true, false, false));
    assert!(!state.create_borders_callback(4, false, true, false));
    assert_eq!(state.initial_windows, vec![1, 2, 3]);
    state.forget_initial_windows();
    assert!(state.initial_windows.is_empty());
    assert_eq!(state.active_window, 5);
}

#[test]
fn windows_that_do_not_exist_any_more_are_found() {
    assert_eq!(invalid_windows(&vec![3, 1, 2], &vec![false, true, false]), vec![3, 2]);
    assert!(invalid_windows(&vec![], &vec![]).is_empty());
}

#[test]
fn showing_a_border_posts_or_asks() {
    assert_eq!(show_border_for_window(Some(9), false, false, true), ShowStep::Post { border: 9 });
    assert_eq!(show_border_for_window(None, true, true, false), ShowStep::AskRule);
    assert_eq!(show_border_for_window(None, true, true, true), ShowStep::Nothing);
    assert_eq!(show_border_for_window(None, true, false, false), ShowStep::Nothing);
    assert_eq!(show_border_for_window(None, false, true, false), ShowStep::Nothing);
}

#[test]
fn threads_are_waited_for_once_each() {
    assert_eq!(distinct_thread_ids(&vec![4, 0, 4, 7, 0]), vec![4, 7]);
    assert!(distinct_thread_ids(&vec![0]).is_empty());
    assert!(!wait_for_threads_failed(WAIT_OBJECT_0, 2));
    assert!(!wait_for_threads_failed(WAIT_OBJECT_0 + 1, 2));
    assert!(wait_for_threads_failed(WAIT_OBJECT_0 + 2, 2));
    assert!(wait_for_threads_failed(258, 2));
    assert!(!wait_for_threads_failed(WAIT_FAILED, 0));
}

#[test]
fn adapter_changes_refresh_the_borders() {
    assert_eq!(adapters_watcher_step(WAIT_OBJECT_0), AdaptersStep::Refresh);
    assert_eq!(adapters_watcher_step(WAIT_OBJECT_0 + 1), AdaptersStep::Stop);
    assert_eq!(adapters_watcher_step(WAIT_ABANDONED_0), AdaptersStep::Fail);
    assert_eq!(adapters_watcher_step(WAIT_ABANDONED_0 + 1), AdaptersStep::Fail);
    assert_eq!(adapters_watcher_step(WAIT_FAILED), AdaptersStep::Fail);
    assert!(after_recreation(true));
    assert!(!after_recreation(false));
    let current = AdapterLuid { low: 1, high: 0 };
    assert!(!needs_recreation(current, current));
    assert!(needs_recreation(current, AdapterLuid { low: 1, high: -1 }));
}

#[test]
fn no_foreground_window_is_no_change() {
    assert!(foreground_changed(1, 2));
    assert!(!foreground_changed(1, 1));
    assert!(!foreground_changed(1, 0));
}

fn record(next: u32, name: &str) -> Vec<u8> {
    let units: Vec<u16> = name.encode_utf16().collect();
    let mut bytes = Vec::new();
    bytes.extend_from_slice(&next.to_le_bytes());
    bytes.extend_from_slice(&3u32.to_le_bytes());
    bytes.extend_from_slice(&(2 * units.len() as u32).to_le_bytes());
    for unit in units {
        bytes.extend_from_slice(&unit.to_le_bytes());
    }
    bytes
}

fn records(names: &[&str]) -> Vec<u8> {
    let mut bytes = Vec::new();
    for (i, name) in names.iter().enumerate() {
        let len = record(0, name).len() as u32;
        bytes.extend(record(if i + 1 < names.len() { len } else { 0 }, name));
    }
    bytes
}

fn changed(bytes: &[u8], config_name: &str) -> Option<bool> {
    let watcher = ConfigWatcher::new(config_name.to_string(), 500);
    assert_eq!(watcher.debounce_time, 500);
    ConfigWatcher::process_dir_change_notifs(bytes, bytes.len() as u32, &watcher.config_name)
}

#[test]
fn the_configuration_is_found_among_the_changes() {
    assert_eq!(changed(&records(&["config.yaml"]), "config.yaml"), Some(true));
    assert_eq!(changed(&records(&["a.log", "ünï😀.txt", "config.yaml"]), "config.yaml"), Some(true));
    assert_eq!(changed(&records(&["ünï😀.txt"]), "ünï😀.txt"), Some(true));
    assert_eq!(changed(&records(&["a.log", "Config.yaml"]), "config.yaml"), Some(false));
    assert_eq!(changed(&[], "config.yaml"), Some(false));
}

#[test]
fn records_behind_the_last_one_are_not_read() {
    let mut bytes = record(0, "a.log");
    bytes.extend(record(0, "config.yaml"));
    assert_eq!(changed(&bytes, "config.yaml"), Some(false));
    let bytes = records(&["a.log", "config.yaml"]);
    assert_eq!(
        ConfigWatcher::process_dir_change_notifs(&bytes, 4, "config.yaml"),
        Some(false)
    );
}

#[test]
fn records_that_are_cut_off_say_nothing() {
    let bytes = record(0, "config.yaml");
    assert_eq!(changed(&bytes[..bytes.len() - 1], "config.yaml"), None);
    assert_eq!(changed(&bytes[..11], "config.yaml"), None);
    assert!(read_record(&bytes, 1).is_none());
    let whole = read_record(&bytes, 0).unwrap();
    assert_eq!(whole.next_entry_offset, 0);
    assert_eq!(String::from_utf16(&whole.file_name).unwrap(), "config.yaml");
}
