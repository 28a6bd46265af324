//! Laws about komorebi: what a document says, what a notification changes, and who is told.
use crate::json::JsonModel;
use crate::komorebi::{
    apply_updates, container_kind, container_state, container_states, floating_handles,
    floating_kind, is_plain_kind, known_kind, monitor_state, monitor_updates, monocle_kind,
    needs_message, notification_state, notification_updates, window_handle, workspace_state,
    workspace_updates, ContainerState, KindUpdate, Notification,
    NotificationModel, WindowKind, WorkspaceModel,
};
use vstd::prelude::*;

verus! {

// ---------------------------------------------------------------------------------------------
// JSON values
// ---------------------------------------------------------------------------------------------

/// A number as a document holds it.
pub open spec fn json_number(n: int) -> JsonModel {
    if n >= 0 {
        JsonModel::Unsigned(n as u64)
    } else {
        JsonModel::Signed(n as i64)
    }
}

/// An integer is read back as what it is, unsigned where it is not negative, and signed where it
/// fits.
pub proof fn json_integers_read_back(n: int)
    requires
        i64::MIN <= n <= u64::MAX,
    ensures
        n >= 0 ==> json_number(n).unsigned() == Some(n as u64),
        n < 0 ==> json_number(n).unsigned() is None,
        n <= i64::MAX ==> json_number(n).signed() == Some(n as i64),
        n > i64::MAX ==> json_number(n).signed() is None,
{
}

/// Nothing but an integer is read as one, and nothing but an array has items.
pub proof fn json_kinds_do_not_mix(
    truth: bool,
    text: Seq<char>,
    items: Seq<JsonModel>,
    members: Seq<(Seq<char>, JsonModel)>,
    key: Seq<char>,
    n: int,
)
    ensures
        JsonModel::Null.unsigned() is None && JsonModel::Null.signed() is None,
        JsonModel::Bool(truth).unsigned() is None && JsonModel::Bool(truth).signed() is None,
        JsonModel::Fraction.unsigned() is None && JsonModel::Fraction.signed() is None,
        JsonModel::Text(text).unsigned() is None && JsonModel::Text(text).signed() is None,
        JsonModel::Array(items).unsigned() is None && JsonModel::Array(items).signed() is None,
        JsonModel::Object(members).unsigned() is None && JsonModel::Object(members).signed()
            is None,
        JsonModel::Array(items).items() == Some(items),
        JsonModel::Null.items() is None,
        JsonModel::Object(members).items() is None,
        JsonModel::Text(text).items() is None,
        json_number(n).items() is None,
        JsonModel::Null.member(key) is Null,
        JsonModel::Array(items).member(key) is Null,
        JsonModel::Text(text).member(key) is Null,
        json_number(n).member(key) is Null,
{
}

/// The first member with a key counts, whatever stands before it under other keys and behind it
/// under any; without one there is null.
pub proof fn first_member_counts(
    before: Seq<(Seq<char>, JsonModel)>,
    key: Seq<char>,
    value: JsonModel,
    after: Seq<(Seq<char>, JsonModel)>,
)
    requires
        forall|i: int| 0 <= i < before.len() ==> (#[trigger] before[i]).0 != key,
    ensures
        JsonModel::Object(before + seq![(key, value)] + after).member(key) == value,
        JsonModel::Object(before).member(key) is Null,
    decreases before.len(),
{
    let all = before + seq![(key, value)] + after;
    if before.len() > 0 {
        assert(all[0] == before[0]);
        assert(all.drop_first() =~= before.drop_first() + seq![(key, value)] + after);
        assert forall|i: int| 0 <= i < before.drop_first().len() implies (
        #[trigger] before.drop_first()[i]).0 != key by {
            assert(before[i + 1].0 != key);
        }
        first_member_counts(before.drop_first(), key, value, after);
    }
}

// ---------------------------------------------------------------------------------------------
// Layouts and the documents that describe them
// ---------------------------------------------------------------------------------------------

/// The windows stacked in a container, and the one on top.
pub struct ContainerLayout {
    pub windows: Seq<isize>,
    pub top: nat,
}

/// What lies on a workspace.
pub struct WorkspaceLayout {
    pub monocle: Option<Seq<isize>>,
    pub containers: Seq<ContainerLayout>,
    pub focused: nat,
    pub floating: Seq<isize>,
}

/// The workspaces of a monitor, and the one that is shown.
pub struct MonitorLayout {
    pub workspaces: Seq<WorkspaceLayout>,
    pub focused: nat,
}

/// All monitors, and the focused one.
pub struct ScreenLayout {
    pub monitors: Seq<MonitorLayout>,
    pub focused: nat,
}

/// Whether a value is a list of windows under `elements`.
pub open spec fn describes_windows(json: JsonModel, windows: Seq<isize>) -> bool {
    &&& json.member("elements"@) matches JsonModel::Array(items)
    &&& items.len() == windows.len()
    &&& forall|i: int|
        0 <= i < items.len() ==> (#[trigger] items[i]).member("hwnd"@) == json_number(
            windows[i] as int,
        )
}

/// Whether a value describes a container.
pub open spec fn describes_container(json: JsonModel, container: ContainerLayout) -> bool {
    &&& describes_windows(json.member("windows"@), container.windows)
    &&& json.member("windows"@).member("focused"@) == json_number(container.top as int)
}

/// Whether a value describes a workspace.
pub open spec fn describes_workspace(json: JsonModel, workspace: WorkspaceLayout) -> bool {
    &&& match workspace.monocle {
        Some(windows) => {
            &&& !(json.member("monocle_container"@) is Null)
            &&& describes_windows(json.member("monocle_container"@).member("windows"@), windows)
        },
        None => json.member("monocle_container"@) is Null,
    }
    &&& json.member("containers"@).member("elements"@) matches JsonModel::Array(items)
    &&& items.len() == workspace.containers.len()
    &&& forall|i: int|
        0 <= i < items.len() ==> describes_container(
            #[trigger] items[i],
            workspace.containers[i],
        )
    &&& json.member("containers"@).member("focused"@) == json_number(workspace.focused as int)
    &&& describes_windows(json.member("floating_windows"@), workspace.floating)
}

/// Whether a value describes a monitor. Of the workspaces that are not shown nothing is asked.
pub open spec fn describes_monitor(json: JsonModel, monitor: MonitorLayout) -> bool {
    &&& json.member("workspaces"@).member("elements"@) matches JsonModel::Array(items)
    &&& items.len() == monitor.workspaces.len()
    &&& monitor.focused < items.len() ==> describes_workspace(
        items[monitor.focused as int],
        monitor.workspaces[monitor.focused as int],
    )
    &&& json.member("workspaces"@).member("focused"@) == json_number(monitor.focused as int)
}

/// Whether a document describes a screen.
pub open spec fn describes_screen(document: JsonModel, screen: ScreenLayout) -> bool {
    let monitors = document.member("state"@).member("monitors"@);
    &&& monitors.member("elements"@) matches JsonModel::Array(items)
    &&& items.len() == screen.monitors.len()
    &&& forall|i: int|
        0 <= i < items.len() ==> describes_monitor(#[trigger] items[i], screen.monitors[i])
    &&& monitors.member("focused"@) == json_number(screen.focused as int)
}

/// Whether the top window of a container is one of its windows, and its numbers are ones that a
/// machine integer holds.
pub open spec fn is_sound_container(container: ContainerLayout) -> bool {
    &&& container.top < container.windows.len() <= usize::MAX
}

/// Whether a workspace is sound: so are its containers, and a monocle has a window.
pub open spec fn is_sound_workspace(workspace: WorkspaceLayout) -> bool {
    &&& workspace.monocle matches Some(windows) ==> windows.len() > 0
    &&& forall|i: int|
        0 <= i < workspace.containers.len() ==> is_sound_container(
            #[trigger] workspace.containers[i],
        )
    &&& workspace.focused <= i64::MAX && workspace.focused <= usize::MAX
}

/// Whether the shown workspace of a monitor is sound.
pub open spec fn is_sound_monitor(monitor: MonitorLayout) -> bool {
    &&& monitor.focused <= u64::MAX && monitor.focused <= usize::MAX
    &&& monitor.focused < monitor.workspaces.len() ==> is_sound_workspace(
        monitor.workspaces[monitor.focused as int],
    )
}

/// What is to be read of the container at `idx` of a workspace.
pub open spec fn read_of_container(workspace: WorkspaceLayout, idx: int) -> ContainerState {
    let container = workspace.containers[idx];
    ContainerState {
        is_focused: idx == workspace.focused,
        window_count: container.windows.len() as usize,
        tracking_hwnd: container.windows[container.top as int],
    }
}

/// What is to be read of a workspace.
pub open spec fn read_of_workspace(workspace: WorkspaceLayout) -> WorkspaceModel {
    WorkspaceModel {
        monocle: match workspace.monocle {
            Some(windows) => Some(windows[0]),
            None => None,
        },
        containers: Seq::new(
            workspace.containers.len(),
            |i: int| read_of_container(workspace, i),
        ),
        floating: workspace.floating,
    }
}

/// What is to be read of a monitor: its shown workspace, if there is one.
pub open spec fn read_of_monitor(monitor: MonitorLayout) -> Option<WorkspaceModel> {
    if monitor.focused < monitor.workspaces.len() {
        Some(read_of_workspace(monitor.workspaces[monitor.focused as int]))
    } else {
        None
    }
}

proof fn lemma_handle(json: JsonModel, hwnd: isize)
    requires
        json.member("hwnd"@) == json_number(hwnd as int),
    ensures
        window_handle(json) == Some(hwnd),
{
}

/// The handles of a list of floating windows are read in order.
pub proof fn floating_windows_are_read(json: JsonModel, windows: Seq<isize>)
    requires
        describes_windows(json, windows),
    ensures
        floating_handles(json) == Some(windows),
{
    let items = json.member("elements"@)->Array_0;
    assert forall|i: int| 0 <= i < items.len() implies window_handle(#[trigger] items[i]) == Some(
        windows[i],
    ) by {
        lemma_handle(items[i], windows[i]);
    }
    let entries = Seq::new(items.len(), |i: int| window_handle(items[i]));
    assert forall|i: int| 0 <= i < entries.len() implies (#[trigger] entries[i]) is Some by {
        assert(window_handle(items[i]) == Some(windows[i]));
    }
    assert(Seq::new(entries.len(), |i: int| entries[i]->0) =~= windows);
}

/// A container that is described is read: its top window, how many windows are stacked in it, and
/// whether it is the focused one.
pub proof fn containers_are_read(
    json: JsonModel,
    container: ContainerLayout,
    idx: int,
    focused: usize,
)
    requires
        describes_container(json, container),
        is_sound_container(container),
    ensures
        container_state(json, idx, focused) == Some(
            ContainerState {
                is_focused: idx == focused,
                window_count: container.windows.len() as usize,
                tracking_hwnd: container.windows[container.top as int],
            },
        ),
{
    let items = json.member("windows"@).member("elements"@)->Array_0;
    lemma_handle(items[container.top as int], container.windows[container.top as int]);
}

/// A workspace that is described is read: its monocle window, its containers and its floating
/// windows.
pub proof fn workspaces_are_read(json: JsonModel, workspace: WorkspaceLayout)
    requires
        describes_workspace(json, workspace),
        is_sound_workspace(workspace),
    ensures
        workspace_state(json) == Some(read_of_workspace(workspace)),
{
    floating_windows_are_read(json.member("floating_windows"@), workspace.floating);
    let ring = json.member("containers"@);
    let items = ring.member("elements"@)->Array_0;
    let focused = workspace.focused as usize;
    let entries = Seq::new(items.len(), |i: int| container_state(items[i], i, focused));
    assert forall|i: int| 0 <= i < entries.len() implies #[trigger] entries[i] == Some(
        read_of_container(workspace, i),
    ) by {
        assert(describes_container(items[i], workspace.containers[i]));
        assert(is_sound_container(workspace.containers[i]));
        containers_are_read(items[i], workspace.containers[i], i, focused);
    }
    let expected = read_of_workspace(workspace).containers;
    assert(container_states(ring) == Some(expected)) by {
        if items.len() == 0 {
            assert(expected =~= Seq::<ContainerState>::empty());
        } else {
            assert(Seq::new(entries.len(), |i: int| entries[i]->0) =~= expected);
        }
    }
    if let Some(windows) = workspace.monocle {
        let listed = json.member("monocle_container"@).member("windows"@).member("elements"@);
        lemma_handle(listed->Array_0[0], windows[0]);
    }
}

/// A monitor is read as its shown workspace, whatever its other workspaces hold. One that shows
/// none has nothing to be read.
pub proof fn shown_workspaces_are_read(json: JsonModel, monitor: MonitorLayout)
    requires
        describes_monitor(json, monitor),
        is_sound_monitor(monitor),
    ensures
        monitor_state(json) == Some(read_of_monitor(monitor)),
{
    if monitor.focused < monitor.workspaces.len() {
        workspaces_are_read(
            json.member("workspaces"@).member("elements"@)->Array_0[monitor.focused as int],
            monitor.workspaces[monitor.focused as int],
        );
    }
}

/// A screen that is described is read: for every monitor its shown workspace, and which monitor is
/// focused.
pub proof fn screens_are_read(document: JsonModel, screen: ScreenLayout)
    requires
        describes_screen(document, screen),
        forall|i: int|
            0 <= i < screen.monitors.len() ==> is_sound_monitor(#[trigger] screen.monitors[i]),
        screen.focused <= u64::MAX && screen.focused <= usize::MAX,
    ensures
        notification_state(document) == Some(
            NotificationModel {
                focused_monitor: screen.focused as usize,
                monitors: Seq::new(
                    screen.monitors.len(),
                    |i: int| read_of_monitor(screen.monitors[i]),
                ),
            },
        ),
{
    let items = document.member("state"@).member("monitors"@).member("elements"@)->Array_0;
    let entries = Seq::new(items.len(), |i: int| monitor_state(items[i]));
    assert forall|i: int| 0 <= i < entries.len() implies #[trigger] entries[i] == Some(
        read_of_monitor(screen.monitors[i]),
    ) by {
        assert(describes_monitor(items[i], screen.monitors[i]));
        assert(is_sound_monitor(screen.monitors[i]));
        shown_workspaces_are_read(items[i], screen.monitors[i]);
    }
    assert(Seq::new(entries.len(), |i: int| entries[i]->0) =~= Seq::new(
        screen.monitors.len(),
        |i: int| read_of_monitor(screen.monitors[i]),
    ));
}

/// Whether a value holds workspaces, and names the one that is shown.
pub open spec fn shows(monitor: JsonModel, workspaces: Seq<JsonModel>, shown: u64) -> bool {
    &&& monitor.member("workspaces"@).member("elements"@) == JsonModel::Array(workspaces)
    &&& monitor.member("workspaces"@).member("focused"@) == JsonModel::Unsigned(shown)
}

/// Two monitors that show the same workspace are read alike, wherever it stands and whatever the
/// other workspaces hold.
pub proof fn hidden_workspaces_do_not_matter(
    monitor: JsonModel,
    workspaces: Seq<JsonModel>,
    shown: u64,
    other: JsonModel,
    other_workspaces: Seq<JsonModel>,
    other_shown: u64,
)
    requires
        shows(monitor, workspaces, shown),
        shows(other, other_workspaces, other_shown),
        shown < workspaces.len() && shown <= usize::MAX,
        other_shown < other_workspaces.len() && other_shown <= usize::MAX,
        workspaces[shown as int] == other_workspaces[other_shown as int],
    ensures
        monitor_state(monitor) == monitor_state(other),
        monitor_state(monitor) == (match workspace_state(workspaces[shown as int]) {
            Some(workspace) => Some(Some(workspace)),
            None => None,
        }),
{
}

/// A document lacks something where a number is missing that has to be there, where a list is no
/// list, or where the top window of a container, or any handle, is missing. Nothing is read of it.
pub proof fn incomplete_documents_are_not_read(json: JsonModel, idx: int, focused: usize)
    ensures
        json.member("hwnd"@).signed() is None ==> window_handle(json) is None,
        json.member("elements"@).items() is None ==> floating_handles(json) is None,
        json.member("elements"@).items() is None ==> container_states(json) is None,
        json.member("elements"@).items() matches Some(items) ==> items.len() > 0
            && json.member("focused"@).signed() is None ==> container_states(json) is None,
        json.member("windows"@).member("elements"@).items() is None ==> container_state(
            json,
            idx,
            focused,
        ) is None,
        json.member("windows"@).member("focused"@).unsigned() is None ==> container_state(
            json,
            idx,
            focused,
        ) is None,
        json.member("workspaces"@).member("elements"@).items() is None ==> monitor_state(
            json,
        ) is None,
        json.member("workspaces"@).member("focused"@).unsigned() is None ==> monitor_state(
            json,
        ) is None,
        json.member("state"@).member("monitors"@).member("elements"@).items() is None
            ==> notification_state(json) is None,
        json.member("state"@).member("monitors"@).member("focused"@).unsigned() is None
            ==> notification_state(json) is None,
        container_states(json.member("containers"@)) is None ==> workspace_state(json) is None,
        floating_handles(json.member("floating_windows"@)) is None ==> workspace_state(json) is None,
        !(json.member("monocle_container"@) is Null) && json.member("monocle_container"@).member(
            "windows"@,
        ).member("elements"@).items() is None ==> workspace_state(json) is None,
{
}

/// A workspace without containers need not say which one is focused.
pub proof fn empty_workspaces_need_no_focus(json: JsonModel)
    requires
        json.member("elements"@) == JsonModel::Array(Seq::<JsonModel>::empty()),
    ensures
        container_states(json) == Some(Seq::<ContainerState>::empty()),
        floating_handles(json) == Some(Seq::<isize>::empty()),
{
    floating_windows_are_read(json, Seq::<isize>::empty());
}

/// A single part that cannot be read spoils everything around it.
pub proof fn one_bad_part_spoils_the_whole(
    json: JsonModel,
    items: Seq<JsonModel>,
    focused: i64,
    at: int,
)
    requires
        0 <= at < items.len(),
    ensures
        json.member("elements"@) == JsonModel::Array(items) && window_handle(items[at]) is None
            ==> floating_handles(json) is None,
        json.member("elements"@) == JsonModel::Array(items) && json.member("focused"@).signed()
            == Some(focused) && container_state(items[at], at, focused as usize) is None
            ==> container_states(json) is None,
        json.member("state"@).member("monitors"@).member("elements"@) == JsonModel::Array(items)
            && monitor_state(items[at]) is None ==> notification_state(json) is None,
        json.member("monocle_container"@).member("windows"@).member("elements"@)
            == JsonModel::Array(items) && window_handle(items[0]) is None ==> workspace_state(
            json,
        ) is None,
        json.member("windows"@).member("elements"@) == JsonModel::Array(items) && json.member(
            "windows"@,
        ).member("focused"@).unsigned() == Some(at as u64) && at <= u64::MAX && at <= usize::MAX
            && window_handle(items[at]) is None ==> container_state(json, at, focused as usize)
            is None,
{
    let handles = Seq::new(items.len(), |i: int| window_handle(items[i]));
    assert(handles[at] == window_handle(items[at]));
    let states = Seq::new(items.len(), |i: int| container_state(items[i], i, focused as usize));
    assert(states[at] == container_state(items[at], at, focused as usize));
    let monitors = Seq::new(items.len(), |i: int| monitor_state(items[i]));
    assert(monitors[at] == monitor_state(items[at]));
    if json.member("monocle_container"@).member("windows"@).member("elements"@)
        == JsonModel::Array(items) {
        assert(!(json.member("monocle_container"@) is Null));
    }
}

/// A top window that is out of range, or a monocle without a window, is not read.
pub proof fn missing_windows_are_not_read(
    json: JsonModel,
    windows: Seq<JsonModel>,
    top: u64,
    idx: int,
    focused: usize,
)
    ensures
        json.member("windows"@).member("elements"@) == JsonModel::Array(windows) && json.member(
            "windows"@,
        ).member("focused"@) == JsonModel::Unsigned(top) && top <= usize::MAX && top
            >= windows.len() ==> container_state(json, idx, focused) is None,
        json.member("monocle_container"@).member("windows"@).member("elements"@)
            == JsonModel::Array(Seq::<JsonModel>::empty()) ==> workspace_state(json) is None,
{
    if json.member("monocle_container"@).member("windows"@).member("elements"@)
        == JsonModel::Array(Seq::<JsonModel>::empty()) {
        assert(!(json.member("monocle_container"@) is Null));
    }
}

/// What is read is kept whole: every monitor, and of its workspace the monocle window, all
/// containers and all floating windows.
pub proof fn notifications_are_kept_whole(notification: Notification, i: int)
    requires
        0 <= i < notification.monitors@.len(),
    ensures
        notification@.focused_monitor == notification.focused_monitor,
        notification@.monitors.len() == notification.monitors@.len(),
        notification.monitors@[i] is None ==> notification@.monitors[i] is None,
        notification.monitors@[i] matches Some(workspace) ==> notification@.monitors[i] == Some(
            WorkspaceModel {
                monocle: workspace.monocle,
                containers: workspace.containers@,
                floating: workspace.floating@,
            },
        ),
{
}

// ---------------------------------------------------------------------------------------------
// Kinds
// ---------------------------------------------------------------------------------------------

/// A container's window is focused exactly if its container and its monitor are and it is in the
/// foreground. It is then stacked if there is another window in the container, and single if not.
pub proof fn container_windows_are_single_or_stacked(
    windows: usize,
    tracking_hwnd: isize,
    is_focused: bool,
    monitor_focused: bool,
    foreground: isize,
)
    ensures
        ({
            let container = ContainerState { is_focused, window_count: windows, tracking_hwnd };
            let kind = container_kind(container, monitor_focused, foreground);
            let focused = is_focused && monitor_focused && tracking_hwnd == foreground;
            &&& kind == WindowKind::Stack <==> focused && windows >= 2
            &&& kind == WindowKind::Single <==> focused && windows <= 1
            &&& kind == WindowKind::Unfocused <==> !focused
        }),
{
}

/// A monocle window is focused with its monitor, and a floating one if it is in the foreground.
pub proof fn monocle_and_floating_windows(hwnd: isize, other: isize)
    ensures
        monocle_kind(true) == WindowKind::Monocle,
        monocle_kind(false) == WindowKind::Unfocused,
        floating_kind(hwnd, hwnd) == WindowKind::Floating,
        hwnd != other ==> floating_kind(hwnd, other) == WindowKind::Unfocused,
{
}

/// Of a workspace every window on the screen is spoken of once: the monocle window first, then the
/// top windows of the containers, then the floating windows, each group in its order.
pub proof fn workspace_windows_have_their_turn(
    workspace: WorkspaceModel,
    monitor_focused: bool,
    floating_foreground: isize,
    container_foreground: isize,
    i: int,
)
    ensures
        ({
            let updates = workspace_updates(
                workspace,
                monitor_focused,
                floating_foreground,
                container_foreground,
            );
            let first: int = if workspace.monocle is Some {
                1
            } else {
                0
            };
            let containers = workspace.containers.len();
            &&& updates.len() == first + containers + workspace.floating.len()
            &&& workspace.monocle matches Some(hwnd) ==> updates[0] == (
                hwnd,
                monocle_kind(monitor_focused),
            )
            &&& 0 <= i < containers ==> updates[first + i] == (
                workspace.containers[i].tracking_hwnd,
                container_kind(workspace.containers[i], monitor_focused, container_foreground),
            )
            &&& 0 <= i < workspace.floating.len() ==> updates[first + containers + i] == (
                workspace.floating[i],
                floating_kind(workspace.floating[i], floating_foreground),
            )
        }),
{
}

/// The monitors have their turn in order. Each counts as focused if it is the focused one, and a
/// monitor that shows nothing has nothing to say.
pub proof fn monitors_have_their_turn(
    notification: NotificationModel,
    foreground_window: isize,
    foreground_hwnds: Seq<isize>,
    n: nat,
)
    ensures
        notification_updates(notification, foreground_window, foreground_hwnds, 0) == Seq::<
            KindUpdate,
        >::empty(),
        notification_updates(notification, foreground_window, foreground_hwnds, n + 1)
            == notification_updates(notification, foreground_window, foreground_hwnds, n) + (
        match notification.monitors[n as int] {
            Some(workspace) => workspace_updates(
                workspace,
                n == notification.focused_monitor,
                foreground_window,
                foreground_hwnds[n as int],
            ),
            None => Seq::<KindUpdate>::empty(),
        }),
        monitor_updates(notification, foreground_window, foreground_hwnds, n as int) == (
        match notification.monitors[n as int] {
            Some(workspace) => workspace_updates(
                workspace,
                n == notification.focused_monitor,
                foreground_window,
                foreground_hwnds[n as int],
            ),
            None => Seq::<KindUpdate>::empty(),
        }),
{
}

/// Without an update nothing changes. Each further update gives one window its part, and leaves
/// all others alone.
pub proof fn updates_take_effect_one_by_one(
    focus_state: Map<isize, WindowKind>,
    updates: Seq<KindUpdate>,
    hwnd: isize,
    kind: WindowKind,
)
    ensures
        apply_updates(focus_state, Seq::<KindUpdate>::empty()) == focus_state,
        apply_updates(focus_state, updates.push((hwnd, kind))) == apply_updates(
            focus_state,
            updates,
        ).insert(hwnd, kind),
{
    assert(updates.push((hwnd, kind)).drop_last() =~= updates);
}

/// A window plays the part that is said of it last.
pub proof fn last_word_counts(
    focus_state: Map<isize, WindowKind>,
    before: Seq<KindUpdate>,
    hwnd: isize,
    kind: WindowKind,
    after: Seq<KindUpdate>,
)
    requires
        forall|i: int| 0 <= i < after.len() ==> (#[trigger] after[i]).0 != hwnd,
    ensures
        ({
            let state = apply_updates(focus_state, before + seq![(hwnd, kind)] + after);
            state.contains_key(hwnd) && state[hwnd] == kind
        }),
    decreases after.len(),
{
    let all = before + seq![(hwnd, kind)] + after;
    if after.len() == 0 {
        assert(all =~= before.push((hwnd, kind)));
        updates_take_effect_one_by_one(focus_state, before, hwnd, kind);
    } else {
        let fewer = after.drop_last();
        assert forall|i: int| 0 <= i < fewer.len() implies (#[trigger] fewer[i]).0 != hwnd by {
            assert(after[i].0 != hwnd);
        }
        last_word_counts(focus_state, before, hwnd, kind, fewer);
        let last = after.last();
        assert(after[after.len() - 1].0 != hwnd);
        assert(all =~= (before + seq![(hwnd, kind)] + fewer).push((last.0, last.1)));
        updates_take_effect_one_by_one(
            focus_state,
            before + seq![(hwnd, kind)] + fewer,
            last.0,
            last.1,
        );
    }
}

/// A window that no update is about plays the part that it played before, if any.
pub proof fn silence_changes_nothing(
    focus_state: Map<isize, WindowKind>,
    updates: Seq<KindUpdate>,
    hwnd: isize,
)
    requires
        forall|i: int| 0 <= i < updates.len() ==> (#[trigger] updates[i]).0 != hwnd,
    ensures
        ({
            let state = apply_updates(focus_state, updates);
            &&& state.contains_key(hwnd) == focus_state.contains_key(hwnd)
            &&& state.contains_key(hwnd) ==> state[hwnd] == focus_state[hwnd]
        }),
    decreases updates.len(),
{
    if updates.len() > 0 {
        let fewer = updates.drop_last();
        assert forall|i: int| 0 <= i < fewer.len() implies (#[trigger] fewer[i]).0 != hwnd by {
            assert(updates[i].0 != hwnd);
        }
        silence_changes_nothing(focus_state, fewer, hwnd);
        assert(updates[updates.len() - 1].0 != hwnd);
        let last = updates.last();
        assert(updates =~= fewer.push((last.0, last.1)));
        updates_take_effect_one_by_one(focus_state, fewer, last.0, last.1);
    }
}

// ---------------------------------------------------------------------------------------------
// Messages
// ---------------------------------------------------------------------------------------------

/// The part of a window is its entry, where it has one.
pub proof fn known_kinds_are_entries(
    focus_state: Map<isize, WindowKind>,
    hwnd: isize,
    kind: WindowKind,
)
    ensures
        known_kind(focus_state.insert(hwnd, kind), hwnd) == Some(kind),
        known_kind(focus_state.remove(hwnd), hwnd) is None,
        known_kind(Map::<isize, WindowKind>::empty(), hwnd) is None,
{
}

/// A border is told of every change of its window's part but one: from single to unfocused, or back.
pub proof fn only_plain_changes_are_silent(before: Option<WindowKind>, after: Option<WindowKind>)
    ensures
        before == after ==> !needs_message(before, after),
        before == Some(WindowKind::Single) && after == Some(WindowKind::Unfocused)
            ==> !needs_message(before, after),
        before == Some(WindowKind::Unfocused) && after == Some(WindowKind::Single)
            ==> !needs_message(before, after),
        before != after && before != Some(WindowKind::Single) && before != Some(
            WindowKind::Unfocused,
        ) ==> needs_message(before, after),
        before != after && after != Some(WindowKind::Single) && after != Some(
            WindowKind::Unfocused,
        ) ==> needs_message(before, after),
        is_plain_kind(before) <==> before == Some(WindowKind::Single) || before == Some(
            WindowKind::Unfocused,
        ),
{
}

/// Stacked, monocle and floating windows, and windows of which nothing is known, make their border
/// be told whenever they come or go.
pub proof fn special_windows_are_announced(other: Option<WindowKind>)
    ensures
        other != Some(WindowKind::Stack) ==> needs_message(Some(WindowKind::Stack), other)
            && needs_message(other, Some(WindowKind::Stack)),
        other != Some(WindowKind::Monocle) ==> needs_message(Some(WindowKind::Monocle), other)
            && needs_message(other, Some(WindowKind::Monocle)),
        other != Some(WindowKind::Floating) ==> needs_message(Some(WindowKind::Floating), other)
            && needs_message(other, Some(WindowKind::Floating)),
        other is Some ==> needs_message(None, other) && needs_message(other, None),
{
}

} // verus!
