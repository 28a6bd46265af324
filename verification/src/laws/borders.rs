//! Laws about borders and about starting with the desktop.
use crate::auto_start::{
    autostart_action, entry_after, entry_read, is_enabled, AutostartAction, RegistryRead,
};
use crate::borders::{gone_windows, is_candidate, WAIT_ABANDONED_0, WAIT_FAILED, WAIT_OBJECT_0};
use crate::utils::{
    WM_APP, WM_APP_ANIMATE, WM_APP_FOREGROUND, WM_APP_HIDECLOAKED, WM_APP_KOMOREBI,
    WM_APP_LOCATIONCHANGE, WM_APP_MINIMIZEEND, WM_APP_MINIMIZESTART, WM_APP_RECREATE_DRAWER,
    WM_APP_REORDER, WM_APP_SHOWUNCLOAKED,
};
use vstd::prelude::*;

verus! {

/// A window can have a border exactly if it is no part of another one, is visible, and is not
/// hidden by the desktop.
pub proof fn candidates_are_shown_windows(top_level: bool, visible: bool, cloaked: bool)
    ensures
        is_candidate(true, true, false),
        is_candidate(top_level, visible, cloaked) ==> top_level && visible && !cloaked,
{
}

/// A window is gone exactly if it does not exist any more, and those that are gone keep their
/// order.
pub proof fn gone_windows_keep_their_order(windows: Seq<isize>, alive: Seq<bool>, hwnd: isize)
    requires
        windows.len() == alive.len(),
    ensures
        gone_windows(Seq::<isize>::empty(), Seq::<bool>::empty()) == Seq::<isize>::empty(),
        gone_windows(windows.push(hwnd), alive.push(true)) == gone_windows(windows, alive),
        gone_windows(windows.push(hwnd), alive.push(false)) == gone_windows(windows, alive).push(
            hwnd,
        ),
{
    assert(windows.push(hwnd).drop_last() =~= windows);
    lemma_gone_by_prefix(windows, alive, alive.push(true));
    lemma_gone_by_prefix(windows, alive, alive.push(false));
}

proof fn lemma_gone_by_prefix(windows: Seq<isize>, alive: Seq<bool>, longer: Seq<bool>)
    requires
        windows.len() <= alive.len(),
        windows.len() <= longer.len(),
        forall|i: int| 0 <= i < windows.len() ==> alive[i] == #[trigger] longer[i],
    ensures
        gone_windows(windows, alive) == gone_windows(windows, longer),
    decreases windows.len(),
{
    if windows.len() > 0 {
        lemma_gone_by_prefix(windows.drop_last(), alive, longer);
        assert(alive[windows.len() - 1] == longer[windows.len() - 1]);
    }
}

/// Every window that does not exist any more is among those that are gone, and no other.
pub proof fn every_gone_window_is_found(windows: Seq<isize>, alive: Seq<bool>, hwnd: isize)
    requires
        windows.len() == alive.len(),
    ensures
        gone_windows(windows, alive).contains(hwnd) <==> exists|i: int|
            0 <= i < windows.len() && #[trigger] windows[i] == hwnd && !alive[i],
    decreases windows.len(),
{
    if windows.len() > 0 {
        let fewer = windows.drop_last();
        let known = alive.drop_last();
        let last = windows.last();
        every_gone_window_is_found(fewer, known, hwnd);
        assert(windows =~= fewer.push(last));
        assert(alive =~= known.push(alive.last()));
        gone_windows_keep_their_order(fewer, known, last);
        crate::handles::lemma_push_contains(gone_windows(fewer, known), last, hwnd);
        if exists|i: int| 0 <= i < windows.len() && #[trigger] windows[i] == hwnd && !alive[i] {
            let i = choose|i: int|
                0 <= i < windows.len() && #[trigger] windows[i] == hwnd && !alive[i];
            if i < fewer.len() {
                assert(fewer[i] == hwnd && !known[i]);
            }
        }
        if exists|i: int| 0 <= i < fewer.len() && #[trigger] fewer[i] == hwnd && !known[i] {
            let i = choose|i: int|
                0 <= i < fewer.len() && #[trigger] fewer[i] == hwnd && !known[i];
            assert(windows[i] == hwnd && !alive[i]);
        }
        assert(windows[windows.len() - 1] == last);
    } else {
        assert(windows =~= Seq::<isize>::empty());
        assert(gone_windows(windows, alive).len() == 0);
    }
}

/// The answers of a wait have the numbers that the operating system gives them.
pub proof fn waits_answer_with_fixed_numbers()
    ensures
        WAIT_OBJECT_0 == 0,
        WAIT_ABANDONED_0 == 0x80,
        WAIT_FAILED == 0xFFFF_FFFFu32,
{
}

/// The messages that borders are sent follow each other from the first number that is free for a
/// program's own, so that no two of them are the same.
pub proof fn messages_follow_each_other()
    ensures
        WM_APP == 0x8000,
        WM_APP_LOCATIONCHANGE == WM_APP,
        WM_APP_REORDER == WM_APP + 1,
        WM_APP_FOREGROUND == WM_APP + 2,
        WM_APP_SHOWUNCLOAKED == WM_APP + 3,
        WM_APP_HIDECLOAKED == WM_APP + 4,
        WM_APP_MINIMIZESTART == WM_APP + 5,
        WM_APP_MINIMIZEEND == WM_APP + 6,
        WM_APP_ANIMATE == WM_APP + 7,
        WM_APP_KOMOREBI == WM_APP + 8,
        WM_APP_RECREATE_DRAWER == WM_APP + 9,
{
}

/// Switching on makes the program start with the desktop and switching off stops that, whatever
/// was there before. An entry for another program, or none, does not count.
pub proof fn switching_decides(exe_path: Seq<char>, other: Seq<char>)
    ensures
        is_enabled(entry_after(autostart_action(true), exe_path), exe_path),
        !is_enabled(entry_after(autostart_action(false), exe_path), exe_path),
        is_enabled(Some(exe_path), exe_path),
        other != exe_path ==> !is_enabled(Some(other), exe_path),
        !is_enabled(None, exe_path),
        autostart_action(true) == AutostartAction::SetValue,
        autostart_action(false) == AutostartAction::DeleteValue,
        entry_after(AutostartAction::SetValue, exe_path) == Some(exe_path),
        entry_after(AutostartAction::DeleteValue, exe_path) is None,
{
}

/// What was read is the entry, or that there is none. A reading that failed says nothing.
pub proof fn readings_say_what_was_there(value: String)
    ensures
        entry_read(RegistryRead::Value(value)) == Some(Some(value@)),
        entry_read(RegistryRead::NotFound) == Some(None::<Seq<char>>),
        entry_read(RegistryRead::Failed) is None,
{
}

} // verus!
