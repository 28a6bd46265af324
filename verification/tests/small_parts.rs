use tacky_borders::anim_timer::{AnimationTimer, TimerStep};
use tacky_borders::auto_start::{
    delete_outcome, is_autostart_enabled, set_autostart, toggle_autostart, AutostartAction,
    RegistryDelete, RegistryError, RegistryRead,
};
use tacky_borders::bezier::{cubic_bezier, BezierError};
use tacky_borders::float_bits::FloatBits;
use tacky_borders::utils::{
    hiword, loword, LockedError, ReentrancyBlocker, ReentrancyError, WriteLockable, WM_APP,
    WM_APP_LOCATIONCHANGE, WM_APP_RECREATE_DRAWER,
};

fn bits(value: f32) -> FloatBits {
    FloatBits { bits: value.to_bits() }
}

fn points(x1: f32, y1: f32, x2: f32, y2: f32) -> [FloatBits; 4] {
    [bits(x1), bits(y1), bits(x2), bits(y2)]
}

#[test]
fn locked_values_do_not_change() {
    let mut value = WriteLockable::new(1);
    assert!(!value.is_locked());
    assert_eq!(value.set(2), Ok(()));
    value.lock_writes();
    assert!(value.is_locked());
    assert_eq!(value.set(3), Err(LockedError));
    assert_eq!(LockedError.message(), "attempted to set a value while it is locked");
    assert_eq!(*value.get(), 2);
    value.unlock_writes();
    assert_eq!(value.set(4), Ok(()));
    assert_eq!(*value.get(), 4);
    let unset: WriteLockable<u8> = WriteLockable::default();
    assert_eq!(*unset.get(), 0);
    assert!(!unset.is_locked());
}

#[test]
fn a_section_is_entered_once_at_a_time() {
    let mut blocker = ReentrancyBlocker::new();
    assert_eq!(blocker.enter(), Ok(()));
    assert_eq!(blocker.enter(), Err(ReentrancyError));
    assert_eq!(blocker.enter(), Err(ReentrancyError));
    assert_eq!(ReentrancyError.message(), "detected re-entrancy");
    blocker.leave();
    assert_eq!(blocker.enter(), Ok(()));
    assert_eq!(ReentrancyBlocker::default(), ReentrancyBlocker::new());
}

#[test]
fn words_are_cut_out_of_values() {
    assert_eq!(hiword(0x1234_5678), 0x1234);
    assert_eq!(loword(0x1234_5678), 0x5678);
    assert_eq!(hiword(usize::MAX), 0xFFFF);
    assert_eq!((hiword(0xFFFF), loword(0x1_0000)), (0, 0));
}

#[test]
fn own_messages_follow_each_other() {
    assert_eq!(WM_APP_LOCATIONCHANGE, WM_APP);
    assert_eq!(WM_APP_RECREATE_DRAWER, WM_APP + 9);
}

#[test]
fn timers_run_until_they_are_stopped() {
    let mut timer = AnimationTimer::new();
    assert_eq!(timer.next_step(), TimerStep::Post);
    assert_eq!(AnimationTimer::after_post(true), TimerStep::Sleep);
    assert_eq!(AnimationTimer::after_post(false), TimerStep::Exit);
    timer.stop();
    assert_eq!(timer.next_step(), TimerStep::Exit);
}

#[test]
fn autostart_is_on_for_the_own_path_only() {
    let own = RegistryRead::Value("C:\\tacky.exe".to_string());
    assert_eq!(is_autostart_enabled(&own, "C:\\tacky.exe"), Ok(true));
    assert_eq!(is_autostart_enabled(&own, "D:\\tacky.exe"), Ok(false));
    assert_eq!(is_autostart_enabled(&RegistryRead::NotFound, "C:\\tacky.exe"), Ok(false));
    assert_eq!(is_autostart_enabled(&RegistryRead::Failed, "C:\\tacky.exe"), Err(RegistryError));
}

#[test]
fn toggling_flips_autostart() {
    let path = "C:\\tacky.exe";
    let mut entry = RegistryRead::NotFound;
    for expected in [true, false, true] {
        entry = match toggle_autostart(&entry, path) {
            Ok(AutostartAction::SetValue) => RegistryRead::Value(path.to_string()),
            Ok(AutostartAction::DeleteValue) => RegistryRead::NotFound,
            Err(RegistryError) => panic!("the entry can be read"),
        };
        assert_eq!(is_autostart_enabled(&entry, path), Ok(expected));
    }
    assert_eq!(toggle_autostart(&RegistryRead::Failed, path), Err(RegistryError));
    assert_eq!(set_autostart(true), AutostartAction::SetValue);
    assert_eq!(set_autostart(false), AutostartAction::DeleteValue);
}

#[test]
fn deleting_what_is_not_there_succeeds() {
    assert_eq!(delete_outcome(RegistryDelete::Deleted), Ok(()));
    assert_eq!(delete_outcome(RegistryDelete::NotFound), Ok(()));
    assert_eq!(delete_outcome(RegistryDelete::Failed), Err(RegistryError));
}

#[test]
fn control_points_lie_between_zero_and_one() {
    assert!(cubic_bezier(&points(0.45, 0.0, 0.55, 1.0)).is_ok());
    assert!(cubic_bezier(&points(0.0, -3.0, 1.0, 7.0)).is_ok());
    assert!(cubic_bezier(&points(-0.0, 0.0, 1.0, 1.0)).is_ok());
    for wrong in [-0.1, 1.0000001, f32::NAN, f32::INFINITY, f32::NEG_INFINITY, -1.0] {
        let error = cubic_bezier(&points(wrong, 0.0, 0.5, 1.0)).unwrap_err();
        assert_eq!(error, BezierError::InvalidControlPoint);
        assert!(cubic_bezier(&points(0.5, 0.0, wrong, 1.0)).is_err());
    }
    assert_eq!(
        BezierError::InvalidControlPoint.message(),
        "cubic-bezier control points must be in the range [0, 1]"
    );
}

#[test]
fn straight_curves_and_ends_need_no_search() {
    let height = |curve: [FloatBits; 4], x: f32| {
        cubic_bezier(&curve).unwrap().known_height(bits(x)).map(|y| f32::from_bits(y.bits))
    };
    let straight = points(0.25, 0.25, 0.75, 0.75);
    assert_eq!(height(straight, 0.3), Some(0.3));
    let eased = points(0.45, 0.0, 0.55, 1.0);
    assert_eq!(height(eased, 0.0), Some(0.0));
    assert_eq!(height(eased, 1.0), Some(1.0));
    assert_eq!(height(eased, 0.5), None);
    let zeros = points(0.0, -0.0, 1.0, 1.0);
    assert_eq!(height(zeros, 0.5), Some(0.5));
}
