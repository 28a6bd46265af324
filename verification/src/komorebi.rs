//! Following the komorebi tiling window manager: what its notifications say of each window, and
//! which borders have to be told about it.
use crate::colors::ColorBrushConfig;
use crate::handles::tracked_handles;
use crate::json::{
    json_get, json_i64, json_is_null, json_items, json_model, json_of_bytes, json_u64, parse_json,
    JsonModel,
};
use crate::same::Same;
use serde_json_borrow::Value;
use std::collections::HashMap;
use vstd::prelude::*;

verus! {

broadcast use vstd::std_specs::hash::group_hash_axioms;

/// The colours of windows that komorebi arranges.
#[derive(Debug, Clone)]
pub struct KomorebiColorsConfig {
    pub stack_color: Option<ColorBrushConfig>,
    pub monocle_color: Option<ColorBrushConfig>,
    pub floating_color: Option<ColorBrushConfig>,
    pub enabled: bool,
}

impl Default for KomorebiColorsConfig {
    /// No colours, and komorebi is not followed.
    fn default() -> (config: Self)
        ensures
            config.stack_color is None,
            config.monocle_color is None,
            config.floating_color is None,
            !config.enabled,
    {
        KomorebiColorsConfig {
            stack_color: None,
            monocle_color: None,
            floating_color: None,
            enabled: false,
        }
    }
}

impl Same for KomorebiColorsConfig {
    open spec fn same(&self, other: &Self) -> bool {
        &&& self.stack_color.same(&other.stack_color)
        &&& self.monocle_color.same(&other.monocle_color)
        &&& self.floating_color.same(&other.floating_color)
        &&& self.enabled.same(&other.enabled)
    }

    open spec fn comparable(&self) -> bool {
        &&& self.stack_color.comparable()
        &&& self.monocle_color.comparable()
        &&& self.floating_color.comparable()
    }

    proof fn lemma_symmetric(&self, other: &Self) {
        self.stack_color.lemma_symmetric(&other.stack_color);
        self.monocle_color.lemma_symmetric(&other.monocle_color);
        self.floating_color.lemma_symmetric(&other.floating_color);
    }

    proof fn lemma_reflexive(&self) {
        self.stack_color.lemma_reflexive();
        self.monocle_color.lemma_reflexive();
        self.floating_color.lemma_reflexive();
    }

    fn is_same(&self, other: &Self) -> (same: bool) {
        self.stack_color.is_same(&other.stack_color) && self.monocle_color.is_same(
            &other.monocle_color,
        ) && self.floating_color.is_same(&other.floating_color) && self.enabled.is_same(
            &other.enabled,
        )
    }
}

/// The part a window plays in the tiling layout.
#[derive(Debug, Clone, Copy, PartialEq, Eq, Structural)]
pub enum WindowKind {
    Single,
    Stack,
    Monocle,
    Unfocused,
    Floating,
}

/// What a notification says of one container of a focused workspace.
#[derive(Debug, Clone, Copy, PartialEq, Eq, Structural)]
pub struct ContainerState {
    /// Whether it is the focused container of its workspace.
    pub is_focused: bool,
    /// The number of windows stacked in it.
    pub window_count: usize,
    /// The window of it that is on top.
    pub tracking_hwnd: isize,
}

/// What a notification says of the focused workspace of a monitor.
#[derive(Debug)]
pub struct WorkspaceState {
    pub monocle: Option<isize>,
    pub containers: Vec<ContainerState>,
    pub floating: Vec<isize>,
}

/// What a notification says of all monitors.
///
/// A monitor whose focused workspace is out of range has no workspace here.
#[derive(Debug)]
pub struct Notification {
    pub focused_monitor: usize,
    pub monitors: Vec<Option<WorkspaceState>>,
}

/// The mathematical content of a [`WorkspaceState`].
pub struct WorkspaceModel {
    pub monocle: Option<isize>,
    pub containers: Seq<ContainerState>,
    pub floating: Seq<isize>,
}

/// The mathematical content of a [`Notification`].
pub struct NotificationModel {
    pub focused_monitor: usize,
    pub monitors: Seq<Option<WorkspaceModel>>,
}

impl View for WorkspaceState {
    type V = WorkspaceModel;

    open spec fn view(&self) -> WorkspaceModel {
        WorkspaceModel {
            monocle: self.monocle,
            containers: self.containers@,
            floating: self.floating@,
        }
    }
}

/// The content of a monitor's entry.
pub open spec fn monitor_model(monitor: Option<WorkspaceState>) -> Option<WorkspaceModel> {
    match monitor {
        Some(workspace) => Some(workspace@),
        None => None,
    }
}

impl View for Notification {
    type V = NotificationModel;

    open spec fn view(&self) -> NotificationModel {
        NotificationModel {
            focused_monitor: self.focused_monitor,
            monitors: Seq::new(self.monitors@.len(), |i: int| monitor_model(self.monitors@[i])),
        }
    }
}

/// Why a notification was not read.
#[derive(Debug, Clone, Copy, PartialEq, Eq, Structural)]
pub enum NotificationError {
    /// The text is no JSON document.
    NotJson,
    /// The document lacks something that every notification has.
    Malformed,
}

// ---------------------------------------------------------------------------------------------
// What a document says
// ---------------------------------------------------------------------------------------------

/// All entries, where every one of them is there.
pub open spec fn all_present<T>(entries: Seq<Option<T>>) -> Option<Seq<T>> {
    if forall|i: int| 0 <= i < entries.len() ==> (#[trigger] entries[i]) is Some {
        Some(Seq::new(entries.len(), |i: int| entries[i]->0))
    } else {
        None
    }
}

/// The handle that a window's description holds.
pub open spec fn window_handle(window: JsonModel) -> Option<isize> {
    match window.member("hwnd"@).signed() {
        Some(hwnd) => Some(hwnd as isize),
        None => None,
    }
}

/// The items of a ring, the list with a focused entry that komorebi uses at every level.
pub open spec fn ring_items(ring: JsonModel) -> Option<Seq<JsonModel>> {
    ring.member("elements"@).items()
}

/// What is said of the container at `idx`, where `focused` is the workspace's focused container.
pub open spec fn container_state(
    container: JsonModel,
    idx: int,
    focused: usize,
) -> Option<ContainerState> {
    let windows = container.member("windows"@);
    match (ring_items(windows), windows.member("focused"@).unsigned()) {
        (Some(items), Some(top)) => if (top as usize) < items.len() {
            match window_handle(items[top as usize as int]) {
                Some(hwnd) => Some(
                    ContainerState {
                        is_focused: idx == focused,
                        window_count: items.len() as usize,
                        tracking_hwnd: hwnd,
                    },
                ),
                None => None,
            }
        } else {
            None
        },
        _ => None,
    }
}

/// What is said of all containers of a workspace. The focused one has to be named only where
/// there is any.
pub open spec fn container_states(containers: JsonModel) -> Option<Seq<ContainerState>> {
    match ring_items(containers) {
        Some(items) => if items.len() == 0 {
            Some(Seq::empty())
        } else {
            match containers.member("focused"@).signed() {
                Some(focused) => all_present(
                    Seq::new(
                        items.len(),
                        |i: int| container_state(items[i], i, focused as usize),
                    ),
                ),
                None => None,
            }
        },
        None => None,
    }
}

/// The handles of the floating windows of a workspace.
pub open spec fn floating_handles(floating: JsonModel) -> Option<Seq<isize>> {
    match ring_items(floating) {
        Some(items) => all_present(Seq::new(items.len(), |i: int| window_handle(items[i]))),
        None => None,
    }
}

/// The window of a monocle container: the first one it lists.
pub open spec fn monocle_handle(monocle: JsonModel) -> Option<isize> {
    match ring_items(monocle.member("windows"@)) {
        Some(items) => if items.len() > 0 {
            window_handle(items[0])
        } else {
            None
        },
        None => None,
    }
}

/// What is said of a workspace.
pub open spec fn workspace_state(workspace: JsonModel) -> Option<WorkspaceModel> {
    let monocle = workspace.member("monocle_container"@);
    match (
        container_states(workspace.member("containers"@)),
        floating_handles(workspace.member("floating_windows"@)),
    ) {
        (Some(containers), Some(floating)) => if monocle is Null {
            Some(WorkspaceModel { monocle: None, containers, floating })
        } else {
            match monocle_handle(monocle) {
                Some(hwnd) => Some(WorkspaceModel { monocle: Some(hwnd), containers, floating }),
                None => None,
            }
        },
        _ => None,
    }
}

/// What is said of a monitor: its focused workspace, if that one is in range.
pub open spec fn monitor_state(monitor: JsonModel) -> Option<Option<WorkspaceModel>> {
    let workspaces = monitor.member("workspaces"@);
    match (ring_items(workspaces), workspaces.member("focused"@).unsigned()) {
        (Some(items), Some(focused)) => if (focused as usize) < items.len() {
            match workspace_state(items[focused as usize as int]) {
                Some(workspace) => Some(Some(workspace)),
                None => None,
            }
        } else {
            Some(None)
        },
        _ => None,
    }
}

/// What a whole document says, or nothing where it lacks a part that has to be there.
pub open spec fn notification_state(document: JsonModel) -> Option<NotificationModel> {
    let monitors = document.member("state"@).member("monitors"@);
    match (monitors.member("focused"@).unsigned(), ring_items(monitors)) {
        (Some(focused), Some(items)) => match all_present(
            Seq::new(items.len(), |i: int| monitor_state(items[i])),
        ) {
            Some(states) => Some(
                NotificationModel { focused_monitor: focused as usize, monitors: states },
            ),
            None => None,
        },
        _ => None,
    }
}

// ---------------------------------------------------------------------------------------------
// Reading a document
// ---------------------------------------------------------------------------------------------

fn read_handle<'a>(window: &'a Value<'a>) -> (handle: Option<isize>)
    ensures
        handle == window_handle(json_model(*window)),
{
    match json_i64(json_get(window, "hwnd")) {
        Some(hwnd) => Some(hwnd as isize),
        None => None,
    }
}

fn read_ring<'a>(ring: &'a Value<'a>) -> (items: Option<&'a [Value<'a>]>)
    ensures
        items is Some <==> ring_items(json_model(*ring)) is Some,
        items matches Some(lent) ==> {
            &&& lent@.len() == ring_items(json_model(*ring))->0.len()
            &&& forall|i: int|
                0 <= i < lent@.len() ==> json_model(#[trigger] lent@[i]) == ring_items(
                    json_model(*ring),
                )->0[i]
        },
{
    json_items(json_get(ring, "elements"))
}

fn read_container<'a>(container: &'a Value<'a>, idx: usize, focused: usize) -> (state: Option<
    ContainerState,
>)
    ensures
        state == container_state(json_model(*container), idx as int, focused),
{
    let windows = json_get(container, "windows");
    let items = match read_ring(windows) {
        Some(items) => items,
        None => return None,
    };
    let top: usize = match json_u64(json_get(windows, "focused")) {
        Some(top) => top as usize,
        None => return None,
    };
    if top >= items.len() {
        return None;
    }
    match read_handle(&items[top]) {
        Some(hwnd) => Some(
            ContainerState {
                is_focused: idx == focused,
                window_count: items.len(),
                tracking_hwnd: hwnd,
            },
        ),
        None => None,
    }
}

fn read_containers<'a>(containers: &'a Value<'a>) -> (states: Option<Vec<ContainerState>>)
    ensures
        states is Some <==> container_states(json_model(*containers)) is Some,
        states matches Some(read) ==> Some(read@) == container_states(json_model(*containers)),
{
    let items = match read_ring(containers) {
        Some(items) => items,
        None => return None,
    };
    let ghost models = ring_items(json_model(*containers))->0;
    let mut states: Vec<ContainerState> = Vec::new();
    if items.len() == 0 {
        assert(states@ =~= Seq::<ContainerState>::empty());
        return Some(states);
    }
    let focused: usize = match json_i64(json_get(containers, "focused")) {
        Some(focused) => focused as usize,
        None => return None,
    };
    let ghost entries = Seq::new(
        models.len(),
        |i: int| container_state(models[i], i, focused),
    );
    let mut idx: usize = 0;
    while idx < items.len()
        invariant
            idx <= items@.len(),
            models.len() == items@.len(),
            forall|i: int| 0 <= i < items@.len() ==> json_model(#[trigger] items@[i]) == models[i],
            entries == Seq::new(models.len(), |i: int| container_state(models[i], i, focused)),
            states@.len() == idx,
            forall|i: int| 0 <= i < idx ==> #[trigger] entries[i] == Some(states@[i]),
            container_states(json_model(*containers)) == all_present(entries),
        decreases items@.len() - idx,
    {
        match read_container(&items[idx], idx, focused) {
            Some(state) => {
                states.push(state);
            },
            None => {
                assert(entries[idx as int] is None);
                return None;
            },
        }
        idx = idx + 1;
    }
    assert(states@ =~= Seq::new(entries.len(), |i: int| entries[i]->0));
    Some(states)
}

fn read_floating<'a>(floating: &'a Value<'a>) -> (handles: Option<Vec<isize>>)
    ensures
        handles is Some <==> floating_handles(json_model(*floating)) is Some,
        handles matches Some(read) ==> Some(read@) == floating_handles(json_model(*floating)),
{
    let items = match read_ring(floating) {
        Some(items) => items,
        None => return None,
    };
    let ghost models = ring_items(json_model(*floating))->0;
    let ghost entries = Seq::new(models.len(), |i: int| window_handle(models[i]));
    let mut handles: Vec<isize> = Vec::new();
    let mut idx: usize = 0;
    while idx < items.len()
        invariant
            idx <= items@.len(),
            models.len() == items@.len(),
            forall|i: int| 0 <= i < items@.len() ==> json_model(#[trigger] items@[i]) == models[i],
            entries == Seq::new(models.len(), |i: int| window_handle(models[i])),
            handles@.len() == idx,
            forall|i: int| 0 <= i < idx ==> #[trigger] entries[i] == Some(handles@[i]),
            floating_handles(json_model(*floating)) == all_present(entries),
        decreases items@.len() - idx,
    {
        match read_handle(&items[idx]) {
            Some(hwnd) => {
                handles.push(hwnd);
            },
            None => {
                assert(entries[idx as int] is None);
                return None;
            },
        }
        idx = idx + 1;
    }
    assert(handles@ =~= Seq::new(entries.len(), |i: int| entries[i]->0));
    Some(handles)
}

fn read_monocle<'a>(monocle: &'a Value<'a>) -> (handle: Option<isize>)
    ensures
        handle == monocle_handle(json_model(*monocle)),
{
    match read_ring(json_get(monocle, "windows")) {
        Some(items) => if items.len() > 0 {
            read_handle(&items[0])
        } else {
            None
        },
        None => None,
    }
}

fn read_workspace<'a>(workspace: &'a Value<'a>) -> (state: Option<WorkspaceState>)
    ensures
        monitor_model(state) == workspace_state(json_model(*workspace)),
{
    let monocle = json_get(workspace, "monocle_container");
    let containers = match read_containers(json_get(workspace, "containers")) {
        Some(containers) => containers,
        None => return None,
    };
    let floating = match read_floating(json_get(workspace, "floating_windows")) {
        Some(floating) => floating,
        None => return None,
    };
    if json_is_null(monocle) {
        Some(WorkspaceState { monocle: None, containers, floating })
    } else {
        match read_monocle(monocle) {
            Some(hwnd) => Some(WorkspaceState { monocle: Some(hwnd), containers, floating }),
            None => None,
        }
    }
}

fn read_monitor<'a>(monitor: &'a Value<'a>) -> (state: Option<Option<WorkspaceState>>)
    ensures
        state is Some <==> monitor_state(json_model(*monitor)) is Some,
        state matches Some(read) ==> Some(monitor_model(read)) == monitor_state(
            json_model(*monitor),
        ),
{
    let workspaces = json_get(monitor, "workspaces");
    let items = match read_ring(workspaces) {
        Some(items) => items,
        None => return None,
    };
    let focused: usize = match json_u64(json_get(workspaces, "focused")) {
        Some(focused) => focused as usize,
        None => return None,
    };
    if focused < items.len() {
        match read_workspace(&items[focused]) {
            Some(workspace) => Some(Some(workspace)),
            None => None,
        }
    } else {
        Some(None)
    }
}

/// Reads a parsed document.
pub fn read_document<'a>(document: &'a Value<'a>) -> (notification: Option<Notification>)
    ensures
        notification is Some <==> notification_state(json_model(*document)) is Some,
        notification matches Some(read) ==> Some(read@) == notification_state(
            json_model(*document),
        ),
{
    let monitors = json_get(json_get(document, "state"), "monitors");
    let focused_monitor: usize = match json_u64(json_get(monitors, "focused")) {
        Some(focused) => focused as usize,
        None => return None,
    };
    let items = match read_ring(monitors) {
        Some(items) => items,
        None => return None,
    };
    let ghost models = ring_items(json_model(*monitors))->0;
    let ghost entries = Seq::new(models.len(), |i: int| monitor_state(models[i]));
    let mut states: Vec<Option<WorkspaceState>> = Vec::new();
    let mut idx: usize = 0;
    while idx < items.len()
        invariant
            idx <= items@.len(),
            models.len() == items@.len(),
            forall|i: int| 0 <= i < items@.len() ==> json_model(#[trigger] items@[i]) == models[i],
            entries == Seq::new(models.len(), |i: int| monitor_state(models[i])),
            states@.len() == idx,
            forall|i: int|
                0 <= i < idx ==> #[trigger] entries[i] == Some(monitor_model(states@[i])),
            all_present(entries) is None ==> notification_state(json_model(*document)) is None,
        decreases items@.len() - idx,
    {
        match read_monitor(&items[idx]) {
            Some(state) => {
                states.push(state);
            },
            None => {
                assert(entries[idx as int] is None);
                return None;
            },
        }
        idx = idx + 1;
    }
    let notification = Notification { focused_monitor, monitors: states };
    assert(notification@.monitors =~= Seq::new(entries.len(), |i: int| entries[i]->0));
    Some(notification)
}

/// Reads the notification in the first `bytes_received` bytes of `buffer`.
pub fn read_notification(buffer: &[u8], bytes_received: u32) -> (result: Result<
    Notification,
    NotificationError,
>)
    requires
        bytes_received <= buffer@.len(),
    ensures
        match json_of_bytes(buffer@.take(bytes_received as int)) {
            None => result == Err::<Notification, NotificationError>(NotificationError::NotJson),
            Some(document) => match notification_state(document) {
                None => result == Err::<Notification, NotificationError>(
                    NotificationError::Malformed,
                ),
                Some(model) => result is Ok && result->Ok_0@ == model,
            },
        },
{
    let text = vstd::slice::slice_subrange(buffer, 0, bytes_received as usize);
    assert(text@ =~= buffer@.take(bytes_received as int));
    match parse_json(text) {
        Ok(document) => match read_document(&document) {
            Some(notification) => Ok(notification),
            None => Err(NotificationError::Malformed),
        },
        Err(_) => Err(NotificationError::NotJson),
    }
}

// ---------------------------------------------------------------------------------------------
// What a notification changes
// ---------------------------------------------------------------------------------------------

/// One window and the part it now plays.
pub type KindUpdate = (isize, WindowKind);

/// The part of a container's window: it counts as focused only if its container and its monitor
/// are, and it is the window in the foreground.
pub open spec fn container_kind(
    container: ContainerState,
    monitor_focused: bool,
    foreground: isize,
) -> WindowKind {
    if !container.is_focused || !monitor_focused || container.tracking_hwnd != foreground {
        WindowKind::Unfocused
    } else if container.window_count > 1 {
        WindowKind::Stack
    } else {
        WindowKind::Single
    }
}

/// The part of a monocle window.
pub open spec fn monocle_kind(monitor_focused: bool) -> WindowKind {
    if monitor_focused {
        WindowKind::Monocle
    } else {
        WindowKind::Unfocused
    }
}

/// The part of a floating window.
pub open spec fn floating_kind(hwnd: isize, foreground: isize) -> WindowKind {
    if hwnd == foreground {
        WindowKind::Floating
    } else {
        WindowKind::Unfocused
    }
}

/// What is said of the monocle window of a workspace, if it has one.
pub open spec fn monocle_updates(workspace: WorkspaceModel, monitor_focused: bool) -> Seq<
    KindUpdate,
> {
    match workspace.monocle {
        Some(hwnd) => seq![(hwnd, monocle_kind(monitor_focused))],
        None => Seq::empty(),
    }
}

/// What is said of the windows of the first `n` containers of a workspace.
pub open spec fn container_updates(
    workspace: WorkspaceModel,
    monitor_focused: bool,
    foreground: isize,
    n: nat,
) -> Seq<KindUpdate> {
    Seq::new(
        n,
        |i: int|
            (
                workspace.containers[i].tracking_hwnd,
                container_kind(workspace.containers[i], monitor_focused, foreground),
            ),
    )
}

/// What is said of the first `n` floating windows of a workspace.
pub open spec fn floating_updates(workspace: WorkspaceModel, foreground: isize, n: nat) -> Seq<
    KindUpdate,
> {
    Seq::new(
        n,
        |i: int| (workspace.floating[i], floating_kind(workspace.floating[i], foreground)),
    )
}

/// What is said of the windows of a workspace, in the order in which it counts: the monocle
/// window, then the containers, then the floating windows.
///
/// The foreground window is asked for once for all floating windows, and once per monitor for the
/// containers.
pub open spec fn workspace_updates(
    workspace: WorkspaceModel,
    monitor_focused: bool,
    floating_foreground: isize,
    container_foreground: isize,
) -> Seq<KindUpdate> {
    monocle_updates(workspace, monitor_focused) + container_updates(
        workspace,
        monitor_focused,
        container_foreground,
        workspace.containers.len(),
    ) + floating_updates(workspace, floating_foreground, workspace.floating.len())
}

/// What is said of the windows of the monitor at `idx`.
pub open spec fn monitor_updates(
    notification: NotificationModel,
    floating_foreground: isize,
    container_foregrounds: Seq<isize>,
    idx: int,
) -> Seq<KindUpdate> {
    match notification.monitors[idx] {
        Some(workspace) => workspace_updates(
            workspace,
            idx == notification.focused_monitor,
            floating_foreground,
            container_foregrounds[idx],
        ),
        None => Seq::empty(),
    }
}

/// What is said of the windows of the first `n` monitors.
pub open spec fn notification_updates(
    notification: NotificationModel,
    floating_foreground: isize,
    container_foregrounds: Seq<isize>,
    n: nat,
) -> Seq<KindUpdate>
    decreases n,
{
    if n == 0 {
        Seq::empty()
    } else {
        notification_updates(
            notification,
            floating_foreground,
            container_foregrounds,
            (n - 1) as nat,
        ) + monitor_updates(
            notification,
            floating_foreground,
            container_foregrounds,
            n - 1,
        )
    }
}

/// The parts of all windows after a list of updates: the last one counts.
pub open spec fn apply_updates(
    focus_state: Map<isize, WindowKind>,
    updates: Seq<KindUpdate>,
) -> Map<isize, WindowKind>
    decreases updates.len(),
{
    if updates.len() == 0 {
        focus_state
    } else {
        apply_updates(focus_state, updates.drop_last()).insert(
            updates.last().0,
            updates.last().1,
        )
    }
}

proof fn lemma_apply_push(
    focus_state: Map<isize, WindowKind>,
    updates: Seq<KindUpdate>,
    update: KindUpdate,
)
    ensures
        apply_updates(focus_state, updates.push(update)) == apply_updates(
            focus_state,
            updates,
        ).insert(update.0, update.1),
{
    assert(updates.push(update).drop_last() =~= updates);
}

fn apply_workspace(
    focus_state: &mut HashMap<isize, WindowKind>,
    workspace: &WorkspaceState,
    monitor_focused: bool,
    floating_foreground: isize,
    container_foreground: isize,
    Ghost(start): Ghost<Map<isize, WindowKind>>,
    Ghost(before): Ghost<Seq<KindUpdate>>,
)
    requires
        old(focus_state)@ == apply_updates(start, before),
    ensures
        final(focus_state)@ == apply_updates(
            start,
            before + workspace_updates(
                workspace@,
                monitor_focused,
                floating_foreground,
                container_foreground,
            ),
        ),
{
    let ghost done = before + monocle_updates(workspace@, monitor_focused);
    match workspace.monocle {
        Some(hwnd) => {
            let kind = if monitor_focused {
                WindowKind::Monocle
            } else {
                WindowKind::Unfocused
            };
            focus_state.insert(hwnd, kind);
            proof {
                lemma_apply_push(start, before, (hwnd, kind));
                assert(done =~= before.push((hwnd, kind)));
            }
        },
        None => {
            assert(done =~= before);
        },
    }

    let mut idx: usize = 0;
    assert(done =~= done + container_updates(
        workspace@,
        monitor_focused,
        container_foreground,
        0,
    ));
    while idx < workspace.containers.len()
        invariant
            idx <= workspace.containers@.len(),
            focus_state@ == apply_updates(
                start,
                done + container_updates(
                    workspace@,
                    monitor_focused,
                    container_foreground,
                    idx as nat,
                ),
            ),
        decreases workspace.containers@.len() - idx,
    {
        let container = workspace.containers[idx];
        let kind = if !container.is_focused || !monitor_focused || container.tracking_hwnd
            != container_foreground {
            WindowKind::Unfocused
        } else if container.window_count > 1 {
            WindowKind::Stack
        } else {
            WindowKind::Single
        };
        focus_state.insert(container.tracking_hwnd, kind);
        proof {
            let so_far = done + container_updates(
                workspace@,
                monitor_focused,
                container_foreground,
                idx as nat,
            );
            lemma_apply_push(start, so_far, (container.tracking_hwnd, kind));
            assert(so_far.push((container.tracking_hwnd, kind)) =~= done + container_updates(
                workspace@,
                monitor_focused,
                container_foreground,
                (idx + 1) as nat,
            ));
        }
        idx = idx + 1;
    }

    let ghost with_containers = done + container_updates(
        workspace@,
        monitor_focused,
        container_foreground,
        workspace@.containers.len(),
    );
    let mut idx: usize = 0;
    assert(with_containers =~= with_containers + floating_updates(
        workspace@,
        floating_foreground,
        0,
    ));
    while idx < workspace.floating.len()
        invariant
            idx <= workspace.floating@.len(),
            focus_state@ == apply_updates(
                start,
                with_containers + floating_updates(
                    workspace@,
                    floating_foreground,
                    idx as nat,
                ),
            ),
        decreases workspace.floating@.len() - idx,
    {
        let hwnd = workspace.floating[idx];
        let kind = if hwnd == floating_foreground {
            WindowKind::Floating
        } else {
            WindowKind::Unfocused
        };
        focus_state.insert(hwnd, kind);
        proof {
            let so_far = with_containers + floating_updates(
                workspace@,
                floating_foreground,
                idx as nat,
            );
            lemma_apply_push(start, so_far, (hwnd, kind));
            assert(so_far.push((hwnd, kind)) =~= with_containers + floating_updates(
                workspace@,
                floating_foreground,
                (idx + 1) as nat,
            ));
        }
        idx = idx + 1;
    }
    assert(with_containers + floating_updates(
        workspace@,
        floating_foreground,
        workspace@.floating.len(),
    ) =~= before + workspace_updates(
        workspace@,
        monitor_focused,
        floating_foreground,
        container_foreground,
    ));
}

/// Whether a border has to be told that its window went from `previous` to `new`.
///
/// Nothing is said where the part did not change, nor where it only went between single and
/// unfocused: a border follows those two by itself.
pub open spec fn needs_message(previous: Option<WindowKind>, new: Option<WindowKind>) -> bool {
    previous != new && !(is_plain_kind(previous) && is_plain_kind(new))
}

/// Whether a window is known to be single or unfocused.
pub open spec fn is_plain_kind(kind: Option<WindowKind>) -> bool {
    kind == Some(WindowKind::Single) || kind == Some(WindowKind::Unfocused)
}

/// The part of a window, where it is known.
pub open spec fn known_kind(focus_state: Map<isize, WindowKind>, hwnd: isize) -> Option<
    WindowKind,
> {
    if focus_state.contains_key(hwnd) {
        Some(focus_state[hwnd])
    } else {
        None
    }
}

fn kind_of(focus_state: &HashMap<isize, WindowKind>, hwnd: isize) -> (kind: Option<WindowKind>)
    ensures
        kind == known_kind(focus_state@, hwnd),
{
    match focus_state.get(&hwnd) {
        Some(kind) => Some(*kind),
        None => None,
    }
}

fn message_needed(previous: Option<WindowKind>, new: Option<WindowKind>) -> (needed: bool)
    ensures
        needed == needs_message(previous, new),
{
    match (previous, new) {
        (None, None) => false,
        (Some(before), Some(after)) => {
            let plain_before = matches!(before, WindowKind::Single | WindowKind::Unfocused);
            let plain_after = matches!(after, WindowKind::Single | WindowKind::Unfocused);
            before != after && !(plain_before && plain_after)
        },
        _ => true,
    }
}

/// The borders that have to be told of a change, each with the window that it tracks, in no
/// particular order.
pub fn borders_to_notify(
    previous: &HashMap<isize, WindowKind>,
    new: &HashMap<isize, WindowKind>,
    borders: &HashMap<isize, isize>,
) -> (notified: Vec<(isize, isize)>)
    ensures
        notified@.no_duplicates(),
        forall|tracking: isize, border: isize| #[trigger]
            notified@.contains((tracking, border)) <==> borders@.contains_key(tracking)
                && borders@[tracking] == border && needs_message(
                known_kind(previous@, tracking),
                known_kind(new@, tracking),
            ),
{
    let handles = tracked_handles(borders);
    let mut notified: Vec<(isize, isize)> = Vec::new();
    let mut idx: usize = 0;
    while idx < handles.len()
        invariant
            idx <= handles@.len(),
            handles@.no_duplicates(),
            handles@.to_set() == borders@.dom(),
            notified@.no_duplicates(),
            forall|tracking: isize, border: isize| #[trigger]
                notified@.contains((tracking, border)) <==> handles@.take(idx as int).contains(
                    tracking,
                ) && borders@[tracking] == border && needs_message(
                    known_kind(previous@, tracking),
                    known_kind(new@, tracking),
                ),
        decreases handles@.len() - idx,
    {
        let tracking = handles[idx];
        assert(borders@.dom().contains(tracking));
        let ghost seen = handles@.take(idx as int);
        assert(handles@.take(idx + 1) =~= seen.push(tracking));
        assert(!seen.contains(tracking));
        let ghost before = notified@;
        let needed = message_needed(kind_of(previous, tracking), kind_of(new, tracking));
        if needed {
            match borders.get(&tracking) {
                Some(border) => {
                    assert(!notified@.contains((tracking, *border)));
                    notified.push((tracking, *border));
                },
                None => {},
            }
        }
        assert forall|t: isize, b: isize| #[trigger]
            notified@.contains((t, b)) <==> seen.push(tracking).contains(t) && borders@[t] == b
                && needs_message(known_kind(previous@, t), known_kind(new@, t)) by {
            crate::handles::lemma_push_contains(seen, tracking, t);
            if needed {
                crate::handles::lemma_push_contains(before, (tracking, borders@[tracking]), (t, b));
            }
        }
        idx = idx + 1;
    }
    assert(handles@.take(handles@.len() as int) =~= handles@);
    assert forall|t: isize| handles@.contains(t) <==> #[trigger] borders@.contains_key(t) by {
        assert(handles@.to_set().contains(t) <==> handles@.contains(t));
    }
    notified
}

/// How long to wait before komorebi is asked for notifications again, in seconds.
pub const SUBSCRIBE_RETRY_SECS: u64 = 15;

/// How long to wait, in seconds, before komorebi is asked for notifications again; nothing once the
/// question was sent. It cannot be sent while komorebi is not running.
pub fn subscribe_retry(sent: bool) -> (wait: Option<u64>)
    ensures
        wait == (if sent {
            None
        } else {
            Some(SUBSCRIBE_RETRY_SECS)
        }),
{
    if sent {
        None
    } else {
        Some(SUBSCRIBE_RETRY_SECS)
    }
}

/// What is known of the windows that komorebi arranges.
#[derive(Debug)]
pub struct KomorebiIntegration {
    /// The part of each window that borders may track.
    pub focus_state: HashMap<isize, WindowKind>,
}

impl KomorebiIntegration {
    /// Nothing is known yet.
    pub fn new() -> (integration: Self)
        ensures
            integration.focus_state@ == Map::<isize, WindowKind>::empty(),
    {
        KomorebiIntegration { focus_state: HashMap::new() }
    }

    /// Forgets windows that are gone.
    pub fn prune(&mut self, gone: &Vec<isize>)
        ensures
            final(self).focus_state@ == old(self).focus_state@.remove_keys(gone@.to_set()),
    {
        let mut idx: usize = 0;
        assert(gone@.take(0).to_set() =~= Set::<isize>::empty());
        assert(self.focus_state@ =~= self.focus_state@.remove_keys(gone@.take(0).to_set()));
        while idx < gone.len()
            invariant
                idx <= gone@.len(),
                self.focus_state@ == old(self).focus_state@.remove_keys(
                    gone@.take(idx as int).to_set(),
                ),
            decreases gone@.len() - idx,
        {
            self.focus_state.remove(&gone[idx]);
            proof {
                let seen = gone@.take(idx as int);
                let hwnd = gone@[idx as int];
                assert(gone@.take(idx + 1) =~= seen.push(hwnd));
                assert(seen.push(hwnd).to_set() =~= seen.to_set().insert(hwnd)) by {
                    assert forall|other: isize| #[trigger]
                        seen.push(hwnd).to_set().contains(other) <==> seen.to_set().insert(
                            hwnd,
                        ).contains(other) by {
                        crate::handles::lemma_push_contains(seen, hwnd, other);
                    }
                }
                assert(self.focus_state@ =~= old(self).focus_state@.remove_keys(
                    seen.to_set().insert(hwnd),
                ));
            }
            idx = idx + 1;
        }
        assert(gone@.take(gone@.len() as int) =~= gone@);
    }

    /// Takes in a notification, and says which borders have to be told of it, each with the window
    /// that it tracks, in no particular order.
    ///
    /// `foreground_window` is the window in the foreground when the notification came, and
    /// `foreground_hwnds` the one when each monitor had its turn.
    pub fn process_komorebi_notification(
        &mut self,
        notification: &Notification,
        foreground_window: isize,
        foreground_hwnds: &Vec<isize>,
        borders: &HashMap<isize, isize>,
    ) -> (notified: Vec<(isize, isize)>)
        requires
            foreground_hwnds@.len() == notification.monitors@.len(),
        ensures
            final(self).focus_state@ == apply_updates(
                old(self).focus_state@,
                notification_updates(
                    notification@,
                    foreground_window,
                    foreground_hwnds@,
                    notification.monitors@.len(),
                ),
            ),
            notified@.no_duplicates(),
            forall|tracking: isize, border: isize| #[trigger]
                notified@.contains((tracking, border)) <==> borders@.contains_key(tracking)
                    && borders@[tracking] == border && needs_message(
                    known_kind(old(self).focus_state@, tracking),
                    known_kind(final(self).focus_state@, tracking),
                ),
    {
        let previous = self.focus_state.clone();
        let mut idx: usize = 0;
        while idx < notification.monitors.len()
            invariant
                idx <= notification.monitors@.len(),
                foreground_hwnds@.len() == notification.monitors@.len(),
                previous@ == old(self).focus_state@,
                self.focus_state@ == apply_updates(
                    previous@,
                    notification_updates(
                        notification@,
                        foreground_window,
                        foreground_hwnds@,
                        idx as nat,
                    ),
                ),
            decreases notification.monitors@.len() - idx,
        {
            let ghost before = notification_updates(
                notification@,
                foreground_window,
                foreground_hwnds@,
                idx as nat,
            );
            assert(notification@.monitors[idx as int] == monitor_model(
                notification.monitors@[idx as int],
            ));
            match &notification.monitors[idx] {
                Some(workspace) => {
                    apply_workspace(
                        &mut self.focus_state,
                        workspace,
                        idx == notification.focused_monitor,
                        foreground_window,
                        foreground_hwnds[idx],
                        Ghost(previous@),
                        Ghost(before),
                    );
                },
                None => {
                    assert(before + Seq::<KindUpdate>::empty() =~= before);
                },
            }
            idx = idx + 1;
        }
        borders_to_notify(&previous, &self.focus_state, borders)
    }
}

// ---------------------------------------------------------------------------------------------
// Laws
// ---------------------------------------------------------------------------------------------

/// What a list of updates says of a window in the end.
pub open spec fn last_said(updates: Seq<KindUpdate>, hwnd: isize) -> Option<WindowKind>
    decreases updates.len(),
{
    if updates.len() == 0 {
        None
    } else if updates.last().0 == hwnd {
        Some(updates.last().1)
    } else {
        last_said(updates.drop_last(), hwnd)
    }
}

/// What is said last of a window counts, and a window of which nothing is said plays the part that
/// it played before.
pub proof fn last_said_counts(
    focus_state: Map<isize, WindowKind>,
    updates: Seq<KindUpdate>,
    hwnd: isize,
)
    ensures
        known_kind(apply_updates(focus_state, updates), hwnd) == (match last_said(updates, hwnd) {
            Some(kind) => Some(kind),
            None => known_kind(focus_state, hwnd),
        }),
    decreases updates.len(),
{
    if updates.len() > 0 {
        last_said_counts(focus_state, updates.drop_last(), hwnd);
    }
}

/// Something is said of a window exactly if an update is about it, and then it is what one of those
/// updates says.
pub proof fn only_updates_say_something(updates: Seq<KindUpdate>, hwnd: isize)
    ensures
        last_said(updates, hwnd) is Some <==> exists|i: int|
            0 <= i < updates.len() && (#[trigger] updates[i]).0 == hwnd,
        last_said(updates, hwnd) matches Some(kind) ==> updates.contains((hwnd, kind)),
    decreases updates.len(),
{
    if updates.len() > 0 {
        let front = updates.drop_last();
        only_updates_say_something(front, hwnd);
        assert(updates[updates.len() - 1] == updates.last());
        if updates.last().0 != hwnd {
            if exists|i: int| 0 <= i < updates.len() && (#[trigger] updates[i]).0 == hwnd {
                let i = choose|i: int| 0 <= i < updates.len() && (#[trigger] updates[i]).0 == hwnd;
                assert(front[i].0 == hwnd);
            }
            if last_said(updates, hwnd) is Some {
                let i = choose|i: int| 0 <= i < front.len() && front[i] == (
                    hwnd,
                    last_said(updates, hwnd)->0,
                );
                assert(updates[i] == front[i]);
            }
        }
    }
}

/// A notification that comes a second time, with the same windows in the foreground, changes
/// nothing, and no border is told of it.
pub proof fn repeated_notifications_are_silent(
    focus_state: Map<isize, WindowKind>,
    updates: Seq<KindUpdate>,
    hwnd: isize,
)
    ensures
        ({
            let once = apply_updates(focus_state, updates);
            let twice = apply_updates(once, updates);
            &&& twice == once
            &&& !needs_message(known_kind(once, hwnd), known_kind(twice, hwnd))
        }),
{
    let once = apply_updates(focus_state, updates);
    let twice = apply_updates(once, updates);
    assert forall|other: isize| #[trigger] known_kind(twice, other) == known_kind(once, other) by {
        last_said_counts(focus_state, updates, other);
        last_said_counts(once, updates, other);
    }
    assert forall|other: isize| #[trigger]
        twice.contains_key(other) <==> once.contains_key(other) by {
        assert(known_kind(twice, other) == known_kind(once, other));
    }
    assert forall|other: isize| once.contains_key(other) implies #[trigger] twice[other]
        == once[other] by {
        assert(known_kind(twice, other) == known_kind(once, other));
    }
    assert(twice =~= once);
}

/// Whether an update that says more of a window than that it is unfocused is right to do so: a
/// single or stacked window is in the foreground, and so is a floating one, while a monocle window
/// is that of the focused monitor.
pub open spec fn is_earned(
    notification: NotificationModel,
    foreground_window: isize,
    foreground_hwnds: Seq<isize>,
    update: KindUpdate,
) -> bool {
    let focused = notification.focused_monitor as int;
    match update.1 {
        WindowKind::Unfocused => true,
        WindowKind::Floating => update.0 == foreground_window,
        WindowKind::Single | WindowKind::Stack => {
            &&& focused < notification.monitors.len()
            &&& update.0 == foreground_hwnds[focused]
        },
        WindowKind::Monocle => {
            &&& focused < notification.monitors.len()
            &&& notification.monitors[focused] matches Some(workspace)
            &&& workspace.monocle == Some(update.0)
        },
    }
}

proof fn lemma_monitor_updates_are_earned(
    notification: NotificationModel,
    foreground_window: isize,
    foreground_hwnds: Seq<isize>,
    idx: int,
    i: int,
)
    requires
        0 <= idx < notification.monitors.len(),
        0 <= i < monitor_updates(notification, foreground_window, foreground_hwnds, idx).len(),
    ensures
        is_earned(
            notification,
            foreground_window,
            foreground_hwnds,
            monitor_updates(notification, foreground_window, foreground_hwnds, idx)[i],
        ),
{
}

/// A notification calls no window focused that is not: of every window that it speaks of, it says
/// that it is unfocused, or it is right to say more.
pub proof fn focus_is_earned(
    notification: NotificationModel,
    foreground_window: isize,
    foreground_hwnds: Seq<isize>,
    n: nat,
    update: KindUpdate,
)
    requires
        n <= notification.monitors.len(),
        notification_updates(
            notification,
            foreground_window,
            foreground_hwnds,
            n,
        ).contains(update),
    ensures
        is_earned(notification, foreground_window, foreground_hwnds, update),
    decreases n,
{
    let updates = notification_updates(notification, foreground_window, foreground_hwnds, n);
    let i = choose|i: int| 0 <= i < updates.len() && updates[i] == update;
    let before = notification_updates(
        notification,
        foreground_window,
        foreground_hwnds,
        (n - 1) as nat,
    );
    if i < before.len() {
        assert(before[i] == update);
        focus_is_earned(
            notification,
            foreground_window,
            foreground_hwnds,
            (n - 1) as nat,
            update,
        );
    } else {
        lemma_monitor_updates_are_earned(
            notification,
            foreground_window,
            foreground_hwnds,
            n - 1,
            i - before.len(),
        );
    }
}

/// A border is told only of a change, and not of one between single and unfocused. Which way the
/// change goes does not matter.
pub proof fn messages_are_about_changes(before: Option<WindowKind>, after: Option<WindowKind>)
    ensures
        !needs_message(before, before),
        is_plain_kind(before) && is_plain_kind(after) ==> !needs_message(before, after),
        needs_message(before, after) == needs_message(after, before),
        before != after && !is_plain_kind(before) ==> needs_message(before, after),
{
}

} // verus!
