//! Starting the program together with the desktop.
use crate::text::same_text;
use vstd::prelude::*;

verus! {

/// What reading the entry for this program came to.
#[derive(Debug)]
pub enum RegistryRead {
    Value(String),
    NotFound,
    Failed,
}

/// What deleting the entry for this program came to.
#[derive(Debug, Clone, Copy, PartialEq, Eq, Structural)]
pub enum RegistryDelete {
    Deleted,
    NotFound,
    Failed,
}

/// Why the entry could not be read or changed.
#[derive(Debug, Clone, Copy, PartialEq, Eq, Structural)]
pub struct RegistryError;

/// How to change the entry for this program.
#[derive(Debug, Clone, Copy, PartialEq, Eq, Structural)]
pub enum AutostartAction {
    /// Write the path of the program.
    SetValue,
    /// Remove the entry.
    DeleteValue,
}

/// Whether the program starts with the desktop: its entry holds its own path.
pub open spec fn is_enabled(entry: Option<Seq<char>>, exe_path: Seq<char>) -> bool {
    entry == Some(exe_path)
}

/// The entry that was read, where reading it worked.
pub open spec fn entry_read(read: RegistryRead) -> Option<Option<Seq<char>>> {
    match read {
        RegistryRead::Value(value) => Some(Some(value@)),
        RegistryRead::NotFound => Some(None),
        RegistryRead::Failed => None,
    }
}

/// The entry after a change that worked.
pub open spec fn entry_after(action: AutostartAction, exe_path: Seq<char>) -> Option<Seq<char>> {
    match action {
        AutostartAction::SetValue => Some(exe_path),
        AutostartAction::DeleteValue => None,
    }
}

/// The change that switches starting with the desktop on or off.
pub open spec fn autostart_action(enable: bool) -> AutostartAction {
    if enable {
        AutostartAction::SetValue
    } else {
        AutostartAction::DeleteValue
    }
}

/// Whether the program starts with the desktop.
pub fn is_autostart_enabled(read: &RegistryRead, exe_path: &str) -> (result: Result<
    bool,
    RegistryError,
>)
    ensures
        match entry_read(*read) {
            Some(entry) => result == Ok::<bool, RegistryError>(is_enabled(entry, exe_path@)),
            None => result == Err::<bool, RegistryError>(RegistryError),
        },
{
    match read {
        RegistryRead::Value(value) => Ok(same_text(value.as_str(), exe_path)),
        RegistryRead::NotFound => Ok(false),
        RegistryRead::Failed => Err(RegistryError),
    }
}

/// How to switch starting with the desktop on or off.
pub fn set_autostart(enable: bool) -> (action: AutostartAction)
    ensures
        action == autostart_action(enable),
{
    if enable {
        AutostartAction::SetValue
    } else {
        AutostartAction::DeleteValue
    }
}

/// What deleting the entry means: one that was not there is as good as deleted.
pub fn delete_outcome(deleted: RegistryDelete) -> (result: Result<(), RegistryError>)
    ensures
        deleted == RegistryDelete::Failed <==> result == Err::<(), RegistryError>(RegistryError),
        deleted != RegistryDelete::Failed <==> result == Ok::<(), RegistryError>(()),
{
    match deleted {
        RegistryDelete::Failed => Err(RegistryError),
        RegistryDelete::Deleted | RegistryDelete::NotFound => Ok(()),
    }
}

/// How to switch starting with the desktop to the other state.
pub fn toggle_autostart(read: &RegistryRead, exe_path: &str) -> (result: Result<
    AutostartAction,
    RegistryError,
>)
    ensures
        match entry_read(*read) {
            Some(entry) => result == Ok::<AutostartAction, RegistryError>(
                autostart_action(!is_enabled(entry, exe_path@)),
            ),
            None => result == Err::<AutostartAction, RegistryError>(RegistryError),
        },
{
    match is_autostart_enabled(read, exe_path) {
        Ok(enabled) => Ok(set_autostart(!enabled)),
        Err(error) => Err(error),
    }
}

/// Toggling always leads to the other state, whatever the entry held before.
pub proof fn toggle_flips(entry: Option<Seq<char>>, exe_path: Seq<char>)
    ensures
        ({
            let after = entry_after(autostart_action(!is_enabled(entry, exe_path)), exe_path);
            is_enabled(after, exe_path) == !is_enabled(entry, exe_path)
        }),
{
}

} // verus!
