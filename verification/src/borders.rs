//! The table of borders, and the windows that get one.
use crate::handles::tracked_handles;
use std::collections::HashMap;
use vstd::prelude::*;

verus! {

broadcast use vstd::std_specs::hash::group_hash_axioms;

/// The borders there are: for every window that has one, the window that draws it.
#[derive(Debug)]
pub struct Borders {
    pub table: HashMap<isize, isize>,
}

impl View for Borders {
    type V = Map<isize, isize>;

    open spec fn view(&self) -> Map<isize, isize> {
        self.table@
    }
}

impl Borders {
    /// No borders.
    pub fn new() -> (borders: Self)
        ensures
            borders@ == Map::<isize, isize>::empty(),
    {
        Borders { table: HashMap::new() }
    }

    /// The border of a window, if it has one.
    pub fn get_border_for_window(&self, hwnd: isize) -> (border: Option<isize>)
        ensures
            border == (if self@.contains_key(hwnd) {
                Some(self@[hwnd])
            } else {
                None
            }),
    {
        match self.table.get(&hwnd) {
            Some(border) => Some(*border),
            None => None,
        }
    }

    /// Takes note of the border of a window. A window that has one already keeps it.
    pub fn insert(&mut self, tracking: isize, border: isize) -> (inserted: bool)
        ensures
            inserted == !old(self)@.contains_key(tracking),
            inserted ==> final(self)@ == old(self)@.insert(tracking, border),
            !inserted ==> final(self)@ == old(self)@,
    {
        if self.table.contains_key(&tracking) {
            false
        } else {
            self.table.insert(tracking, border);
            true
        }
    }

    /// Forgets the border of a window.
    pub fn remove(&mut self, tracking: isize)
        ensures
            final(self)@ == old(self)@.remove(tracking),
    {
        self.table.remove(&tracking);
    }

    /// All windows that have a border, each once, in no particular order.
    pub fn windows(&self) -> (handles: Vec<isize>)
        ensures
            handles@.no_duplicates(),
            handles@.to_set() == self@.dom(),
    {
        tracked_handles(&self.table)
    }

    /// All borders, each with the window that it tracks, in no particular order.
    pub fn entries(&self) -> (entries: Vec<(isize, isize)>)
        ensures
            entries@.no_duplicates(),
            forall|tracking: isize, border: isize| #[trigger]
                entries@.contains((tracking, border)) <==> self@.contains_key(tracking)
                    && self@[tracking] == border,
    {
        let handles = tracked_handles(&self.table);
        let mut entries: Vec<(isize, isize)> = Vec::new();
        let mut idx: usize = 0;
        while idx < handles.len()
            invariant
                idx <= handles@.len(),
                handles@.no_duplicates(),
                handles@.to_set() == self@.dom(),
                entries@.len() == idx,
                forall|i: int|
                    0 <= i < idx ==> #[trigger] entries@[i] == (handles@[i], self@[handles@[i]]),
            decreases handles@.len() - idx,
        {
            let tracking = handles[idx];
            assert(handles@.to_set().contains(tracking));
            assert(self@.contains_key(tracking));
            match self.table.get(&tracking) {
                Some(border) => {
                    entries.push((tracking, *border));
                },
                None => {},
            }
            idx = idx + 1;
        }
        assert forall|tracking: isize, border: isize| #[trigger]
            entries@.contains((tracking, border)) <==> self@.contains_key(tracking)
                && self@[tracking] == border by {
            if entries@.contains((tracking, border)) {
                let i = choose|i: int|
                    0 <= i < entries@.len() && entries@[i] == (tracking, border);
                assert(handles@[i] == tracking);
                assert(handles@.to_set().contains(tracking));
            }
            if self@.contains_key(tracking) && self@[tracking] == border {
                assert(handles@.to_set().contains(tracking));
                let i = choose|i: int| 0 <= i < handles@.len() && handles@[i] == tracking;
                assert(entries@[i] == (tracking, border));
            }
        }
        entries
    }
}

/// The border that a window loses is the only one that goes.
pub proof fn removing_a_border_keeps_the_others(
    borders: Map<isize, isize>,
    tracking: isize,
    border: isize,
    other: isize,
)
    requires
        !borders.contains_key(tracking),
        other != tracking,
    ensures
        borders.insert(tracking, border).remove(tracking) == borders,
        borders.insert(tracking, border).contains_key(other) == borders.contains_key(other),
        borders.contains_key(other) ==> borders.insert(tracking, border)[other] == borders[other],
{
    assert(borders.insert(tracking, border).remove(tracking) =~= borders);
}

/// Whether a window can have a border at all.
pub open spec fn is_candidate(top_level: bool, visible: bool, cloaked: bool) -> bool {
    top_level && visible && !cloaked
}

/// What the program knows of the windows on the screen, besides their borders.
#[derive(Debug)]
pub struct AppState {
    /// The windows that were open when borders were last made for all of them.
    pub initial_windows: Vec<isize>,
    /// The window in the foreground.
    pub active_window: isize,
}

impl AppState {
    /// No window has been looked at yet.
    pub fn new(active_window: isize) -> (state: Self)
        ensures
            state.initial_windows@ == Seq::<isize>::empty(),
            state.active_window == active_window,
    {
        AppState { initial_windows: Vec::new(), active_window }
    }

    /// Takes note of a window that is open already: every window that is no part of another one.
    /// Says whether it can have a border, so that the rule for it has to be looked up.
    pub fn create_borders_callback(
        &mut self,
        hwnd: isize,
        top_level: bool,
        visible: bool,
        cloaked: bool,
    ) -> (ask_rule: bool)
        ensures
            ask_rule == is_candidate(top_level, visible, cloaked),
            final(self).initial_windows@ == (if top_level {
                old(self).initial_windows@.push(hwnd)
            } else {
                old(self).initial_windows@
            }),
            final(self).active_window == old(self).active_window,
    {
        if !top_level {
            return false;
        }
        self.initial_windows.push(hwnd);
        visible && !cloaked
    }

    /// Forgets which windows were open, before borders are made for all of them again.
    pub fn forget_initial_windows(&mut self)
        ensures
            final(self).initial_windows@ == Seq::<isize>::empty(),
            final(self).active_window == old(self).active_window,
    {
        self.initial_windows.clear();
    }
}

/// The windows that are gone: those whose place in `alive` says so.
pub open spec fn gone_windows(windows: Seq<isize>, alive: Seq<bool>) -> Seq<isize>
    decreases windows.len(),
{
    if windows.len() == 0 {
        Seq::empty()
    } else {
        let before = gone_windows(windows.drop_last(), alive);
        if alive[windows.len() - 1] {
            before
        } else {
            before.push(windows.last())
        }
    }
}

/// The windows that are gone, in their order. `alive` says of each window whether it still exists.
pub fn invalid_windows(windows: &Vec<isize>, alive: &Vec<bool>) -> (gone: Vec<isize>)
    requires
        windows@.len() == alive@.len(),
    ensures
        gone@ == gone_windows(windows@, alive@),
{
    let mut gone: Vec<isize> = Vec::new();
    let mut idx: usize = 0;
    while idx < windows.len()
        invariant
            idx <= windows@.len(),
            windows@.len() == alive@.len(),
            gone@ == gone_windows(windows@.take(idx as int), alive@),
        decreases windows@.len() - idx,
    {
        assert(windows@.take(idx + 1).drop_last() =~= windows@.take(idx as int));
        if !alive[idx] {
            gone.push(windows[idx]);
        }
        idx = idx + 1;
    }
    assert(windows@.take(windows@.len() as int) =~= windows@);
    gone
}

/// What to do to show the border of a window.
#[derive(Debug, Clone, Copy, PartialEq, Eq, Structural)]
pub enum ShowStep {
    /// Tell the border that is there.
    Post { border: isize },
    /// Look for the rule that applies to the window: it may get a border.
    AskRule,
    Nothing,
}

/// What to do to show the border of a window: a border that is there is told, and another window
/// that can have one may get it.
pub fn show_border_for_window(
    border: Option<isize>,
    top_level: bool,
    visible: bool,
    cloaked: bool,
) -> (step: ShowStep)
    ensures
        step == (match border {
            Some(there) => ShowStep::Post { border: there },
            None => if is_candidate(top_level, visible, cloaked) {
                ShowStep::AskRule
            } else {
                ShowStep::Nothing
            },
        }),
{
    match border {
        Some(border) => ShowStep::Post { border },
        None => if top_level && visible && !cloaked {
            ShowStep::AskRule
        } else {
            ShowStep::Nothing
        },
    }
}

/// The threads that have to end before all borders are gone: every one that is known, once.
pub fn distinct_thread_ids(ids: &Vec<u32>) -> (distinct: Vec<u32>)
    ensures
        distinct@.no_duplicates(),
        forall|id: u32| #[trigger] distinct@.contains(id) <==> id != 0 && ids@.contains(id),
{
    let mut distinct: Vec<u32> = Vec::new();
    let mut idx: usize = 0;
    while idx < ids.len()
        invariant
            idx <= ids@.len(),
            distinct@.no_duplicates(),
            forall|id: u32| #[trigger]
                distinct@.contains(id) <==> id != 0 && ids@.take(idx as int).contains(id),
        decreases ids@.len() - idx,
    {
        let id: u32 = ids[idx];
        let ghost seen = ids@.take(idx as int);
        let ghost before = distinct@;
        assert(ids@.take(idx + 1) =~= seen.push(id));
        let known = is_listed(&distinct, id);
        if id != 0 && !known {
            distinct.push(id);
        }
        assert forall|other: u32| #[trigger]
            distinct@.contains(other) <==> other != 0 && seen.push(id).contains(other) by {
            crate::handles::lemma_push_contains(seen, id, other);
            crate::handles::lemma_push_contains(before, id, other);
        }
        idx = idx + 1;
    }
    assert(ids@.take(ids@.len() as int) =~= ids@);
    distinct
}

fn is_listed(ids: &Vec<u32>, id: u32) -> (listed: bool)
    ensures
        listed == ids@.contains(id),
{
    let mut idx: usize = 0;
    while idx < ids.len()
        invariant
            idx <= ids@.len(),
            forall|i: int| 0 <= i < idx ==> #[trigger] ids@[i] != id,
        decreases ids@.len() - idx,
    {
        if ids[idx] == id {
            return true;
        }
        idx = idx + 1;
    }
    false
}

/// The answer of a wait for the first of the objects.
pub const WAIT_OBJECT_0: u32 = 0;

/// The answer of a wait for an object whose owner is gone.
pub const WAIT_ABANDONED_0: u32 = 128;

/// The answer of a wait that failed.
pub const WAIT_FAILED: u32 = 0xFFFF_FFFF;

/// Whether the border threads did not end in time. With no thread to wait for the wait fails, which
/// does not matter.
pub fn wait_for_threads_failed(wait_event: u32, threads: u32) -> (failed: bool)
    ensures
        failed == (threads > 0 && !(WAIT_OBJECT_0 <= wait_event < WAIT_OBJECT_0 + threads)),
{
    threads > 0 && !(WAIT_OBJECT_0 <= wait_event && wait_event < WAIT_OBJECT_0 + threads)
}

/// What the watcher of the display adapters does after a wait.
#[derive(Debug, Clone, Copy, PartialEq, Eq, Structural)]
pub enum AdaptersStep {
    /// It was asked to stop.
    Stop,
    /// The wait failed, which ends the watcher too.
    Fail,
    /// The adapters changed: look at the render devices, and tell all borders.
    Refresh,
}

/// What the watcher of the display adapters does after a wait for two events: the first says that
/// the adapters changed, the second that the watcher is to stop.
pub fn adapters_watcher_step(wait_event: u32) -> (step: AdaptersStep)
    ensures
        wait_event == WAIT_OBJECT_0 + 1 ==> step == AdaptersStep::Stop,
        wait_event == WAIT_ABANDONED_0 || wait_event == WAIT_ABANDONED_0 + 1 || wait_event
            == WAIT_FAILED ==> step == AdaptersStep::Fail,
        wait_event != WAIT_OBJECT_0 + 1 && wait_event != WAIT_ABANDONED_0 && wait_event
            != WAIT_ABANDONED_0 + 1 && wait_event != WAIT_FAILED ==> step == AdaptersStep::Refresh,
{
    if wait_event == WAIT_OBJECT_0 + 1 {
        AdaptersStep::Stop
    } else if wait_event == WAIT_ABANDONED_0 || wait_event == WAIT_ABANDONED_0 + 1 || wait_event
        == WAIT_FAILED {
        AdaptersStep::Fail
    } else {
        AdaptersStep::Refresh
    }
}

/// Whether the watcher of the display adapters goes on after a change, and tells all borders of it:
/// not if the render devices could not be looked at or made anew, which ends the watcher.
/// `recreated` holds also where there are no render devices, or where they could stay.
pub fn after_recreation(recreated: bool) -> (go_on: bool)
    ensures
        go_on == recreated,
{
    recreated
}

/// The number by which the system tells display adapters apart.
#[derive(Debug, Clone, Copy, PartialEq, Eq, Structural)]
pub struct AdapterLuid {
    pub low: u32,
    pub high: i32,
}

/// Whether the render devices belong to an adapter that is no longer the preferred one.
pub fn needs_recreation(current: AdapterLuid, preferred: AdapterLuid) -> (needed: bool)
    ensures
        needed == (current != preferred),
{
    current != preferred
}

/// Whether another window came to the foreground. None at all does not count.
pub fn foreground_changed(old_active: isize, new_active: isize) -> (changed: bool)
    ensures
        changed == (new_active != old_active && new_active != 0),
{
    new_active != old_active && new_active != 0
}

} // verus!
