use crate::message::{Command, Message};
use crate::model::ToastStatus;
use crate::state::AppState;
use crate::update_core::{cancels_tasks, core_step};
use crate::update_profile::profile_step;
use crate::update_ui::ui_step;
use vstd::prelude::*;

verus! {

/// The list without the element at `i`; a position past the end changes nothing.
pub open spec fn without_index<T>(s: Seq<T>, i: usize) -> Seq<T> {
    if i < s.len() {
        s.remove(i as int)
    } else {
        s
    }
}

/// Removes the element at `i` where there is one.
pub fn remove_if_in<T>(v: &mut Vec<T>, i: usize)
    ensures
        final(v)@ == without_index(old(v)@, i),
{
    if i < v.len() {
        let _removed = v.remove(i);
    }
}

/// The list with the element at `i` replaced by `x`; a position past the end
/// changes nothing.
pub open spec fn with_index_set<T>(s: Seq<T>, i: usize, x: T) -> Seq<T> {
    if i < s.len() {
        s.update(i as int, x)
    } else {
        s
    }
}

/// Replaces the element at `i` where there is one.
pub fn set_if_in<T>(v: &mut Vec<T>, i: usize, x: T)
    ensures
        final(v)@ == with_index_set(old(v)@, i, x),
{
    if i < v.len() {
        v.set(i, x);
    }
}

/// One command that delivers a message next.
pub fn dispatch(m: Message) -> (r: Vec<Command>)
    ensures
        r@ == seq![Command::Dispatch(m)],
{
    let mut v: Vec<Command> = Vec::new();
    v.push(Command::Dispatch(m));
    v
}

/// One command.
pub fn single(c: Command) -> (r: Vec<Command>)
    ensures
        r@ == seq![c],
{
    let mut v: Vec<Command> = Vec::new();
    v.push(c);
    v
}

/// Whether a command delivers a notification with this text and colour.
pub open spec fn is_toast(c: Command, text: Seq<char>, status: ToastStatus) -> bool {
    c matches Command::Dispatch(Message::ShowToast(t, st)) && t@ == text && st == status
}

/// A command that delivers a notification.
pub fn toast(text: String, status: ToastStatus) -> (r: Command)
    ensures
        r == Command::Dispatch(Message::ShowToast(text, status)),
        is_toast(r, text@, status),
{
    Command::Dispatch(Message::ShowToast(text, status))
}

/// The window, theme, notification, tray and system-proxy messages.
pub open spec fn is_ui_message(m: Message) -> bool {
    ||| m is Navigate
    ||| m is ToggleTheme
    ||| m is WindowClosed
    ||| m is HideWindow
    ||| m is ShowWindow
    ||| m is Exit
    ||| m is ShowToast
    ||| m is RemoveToast
    ||| m is SetSystemProxy
    ||| m is SystemProxySet
    ||| m is RequestAdminPrivilege
    ||| m is TrayIconEvent
    ||| m is MenuEvent
}

/// The profile, editor, WebDAV and custom-rule messages.
pub open spec fn is_profile_message(m: Message) -> bool {
    ||| m is LoadProfiles
    ||| m is ProfilesLoaded
    ||| m is SetActiveProfile
    ||| m is UpdateImportUrl
    ||| m is UpdateImportName
    ||| m is ImportProfile
    ||| m is ProfileImported
    ||| m is EditProfile
    ||| m is ProfileContentLoaded
    ||| m is EditorTextChanged
    ||| m is SaveProfile
    ||| m is ProfileSaved
    ||| m is UpdateWebDavUrl
    ||| m is UpdateWebDavUser
    ||| m is UpdateWebDavPass
    ||| m is SyncUpload
    ||| m is SyncDownload
    ||| m is SyncFinished
    ||| m is TickSubUpdate
    ||| m is TickWebDavSync
    ||| m is UpdateNewRuleType
    ||| m is UpdateNewRulePayload
    ||| m is UpdateNewRuleTarget
    ||| m is AddCustomRule
    ||| m is RuleAdded
}

/// How any message changes the state and what work it starts: window and
/// tray messages as `ui_step` says, profile messages as `profile_step` says,
/// and all others as `core_step` says.
pub open spec fn step(old: AppState, m: Message, new: AppState, c: Seq<Command>) -> bool {
    if is_ui_message(m) {
        ui_step(old, m, new, c)
    } else if is_profile_message(m) {
        profile_step(old, m, new, c)
    } else {
        core_step(old, m, new, c)
    }
}

impl AppState {
    /// Handles one message: changes the state and returns the work to start.
    pub fn update(&mut self, message: Message) -> (c: Vec<Command>)
        requires
            cancels_tasks(message) ==> old(self).last_task_id < usize::MAX,
        ensures
            step(*old(self), message, *final(self), c@),
    {
        match message {
            Message::Navigate(_) | Message::ToggleTheme | Message::WindowClosed(_)
            | Message::HideWindow | Message::ShowWindow | Message::Exit | Message::ShowToast(..)
            | Message::RemoveToast(_) | Message::SetSystemProxy(_) | Message::SystemProxySet(_)
            | Message::RequestAdminPrivilege | Message::TrayIconEvent(_) | Message::MenuEvent(_) => {
                self.update_ui(message)
            },
            Message::LoadProfiles | Message::ProfilesLoaded(_) | Message::SetActiveProfile(_)
            | Message::UpdateImportUrl(_) | Message::UpdateImportName(_) | Message::ImportProfile
            | Message::ProfileImported(_) | Message::EditProfile(_)
            | Message::ProfileContentLoaded(_) | Message::EditorTextChanged(_)
            | Message::SaveProfile | Message::ProfileSaved(_) | Message::UpdateWebDavUrl(_)
            | Message::UpdateWebDavUser(_) | Message::UpdateWebDavPass(_) | Message::SyncUpload
            | Message::SyncDownload | Message::SyncFinished(_) | Message::TickSubUpdate
            | Message::TickWebDavSync | Message::UpdateNewRuleType(_)
            | Message::UpdateNewRulePayload(_) | Message::UpdateNewRuleTarget(_)
            | Message::AddCustomRule | Message::RuleAdded(_) => self.update_profile(message),
            _ => self.update_core(message),
        }
    }
}

} // verus!
