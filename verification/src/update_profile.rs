use crate::message::{Command, Message};
use crate::model::{Profile, Route, ToastStatus};
use crate::state::AppState;
use crate::text::{owned, str_chars, string_from_chars, trim, trim_chars};
use crate::update::{dispatch, is_toast, single, toast};
use vstd::prelude::*;

verus! {

/// The profile list arrived, or failed to: loading ends, and the list or the
/// error is kept.
#[verifier::opaque]
pub open spec fn profiles_loaded(
    old: AppState,
    r: Result<Vec<Profile>, String>,
    new: AppState,
    c: Seq<Command>,
) -> bool {
    c.len() == 0 && match r {
        Ok(p) => new == AppState { is_loading_profiles: false, profiles: p, ..old },
        Err(e) => new == AppState { is_loading_profiles: false, error_msg: Some(e), ..old },
    }
}

/// Importing the subscription URL typed in: nothing without a URL; otherwise
/// the import starts under the profile name "Downloaded".
#[verifier::opaque]
pub open spec fn import_started(old: AppState, new: AppState, c: Seq<Command>) -> bool {
    if old.import_url@.len() == 0 {
        new == old && c.len() == 0
    } else {
        &&& new == AppState { is_importing: true, ..old }
        &&& c.len() == 1
        &&& c[0] matches Command::ImportProfileFromUrl { name, url }
        &&& name@ == "Downloaded"@
        &&& url == old.import_url
    }
}

/// An import finished: on success the URL field is cleared, the profiles are
/// listed again and a notification says so; on failure the error is kept and
/// shown.
#[verifier::opaque]
pub open spec fn import_finished(
    old: AppState,
    r: Result<(), String>,
    new: AppState,
    c: Seq<Command>,
) -> bool {
    match r {
        Ok(_) => {
            &&& new == AppState { is_importing: false, import_url: new.import_url, ..old }
            &&& new.import_url@.len() == 0
            &&& c.len() == 2
            &&& c[0] == Command::Dispatch(Message::LoadProfiles)
            &&& is_toast(c[1], "Profile imported successfully"@, ToastStatus::Success)
        },
        Err(e) => {
            &&& new == AppState { is_importing: false, error_msg: Some(e), ..old }
            &&& c.len() == 1
            &&& is_toast(c[0], e@, ToastStatus::Error)
        },
    }
}

/// The outcome of work that ends in a notification: on success `ok_text` shows;
/// on failure the error is kept and shown.
pub open spec fn reported(
    old: AppState,
    r: Result<(), String>,
    ok_text: Seq<char>,
    new: AppState,
    c: Seq<Command>,
) -> bool {
    match r {
        Ok(_) => new == old && c.len() == 1 && is_toast(c[0], ok_text, ToastStatus::Success),
        Err(e) => new == AppState { error_msg: Some(e), ..old } && c.len() == 1 && is_toast(
            c[0],
            e@,
            ToastStatus::Error,
        ),
    }
}

/// A profile file was read: the editor gets its path and text and opens; a read
/// error is kept.
#[verifier::opaque]
pub open spec fn content_loaded(
    old: AppState,
    r: Result<(String, String), String>,
    new: AppState,
    c: Seq<Command>,
) -> bool {
    match r {
        Ok((path, content)) => new == AppState {
            editor_path: Some(path),
            editor_text: content,
            ..old
        } && c == seq![Command::Dispatch(Message::Navigate(Route::Editor))],
        Err(e) => new == AppState { error_msg: Some(e), ..old } && c.len() == 0,
    }
}

/// Saving the editor's text to the file it came from; with no file, nothing.
#[verifier::opaque]
pub open spec fn save_requested(old: AppState, new: AppState, c: Seq<Command>) -> bool {
    new == old && match old.editor_path {
        Some(p) => c.len() == 1 && (c[0] matches Command::WriteProfile { path, content } && path
            == p && content == old.editor_text),
        None => c.len() == 0,
    }
}

/// The profile file was written, or failed to be: a notification reports how
/// it went.
#[verifier::opaque]
pub open spec fn profile_saved(
    old: AppState,
    r: Result<(), String>,
    new: AppState,
    c: Seq<Command>,
) -> bool {
    reported(old, r, "Profile saved"@, new, c)
}

/// Starting a WebDAV upload (or download) with the address and credentials
/// typed in: syncing shows as under way.
#[verifier::opaque]
pub open spec fn sync_started(old: AppState, upload: bool, new: AppState, c: Seq<Command>) -> bool {
    &&& new == AppState { is_syncing: true, ..old }
    &&& c.len() == 1
    &&& if upload {
        c[0] == Command::WebDavUpload {
            url: old.webdav_url,
            user: old.webdav_user,
            pass: old.webdav_pass,
        }
    } else {
        c[0] == Command::WebDavDownload {
            url: old.webdav_url,
            user: old.webdav_user,
            pass: old.webdav_pass,
        }
    }
}

/// The periodic WebDAV sync uploads only once an address and a user are set.
pub open spec fn sync_tick_commands(old: AppState) -> Seq<Command> {
    if old.webdav_url@.len() > 0 && old.webdav_user@.len() > 0 {
        seq![Command::Dispatch(Message::SyncUpload)]
    } else {
        seq![]
    }
}

/// A WebDAV sync finished: syncing ends, and a notification reports how it went.
#[verifier::opaque]
pub open spec fn sync_finished(
    old: AppState,
    r: Result<(), String>,
    new: AppState,
    c: Seq<Command>,
) -> bool {
    reported(AppState { is_syncing: false, ..old }, r, "Sync completed"@, new, c)
}

/// The rule line that adding a custom rule puts in the profile: type, payload
/// and target joined by commas.
pub open spec fn rule_line(rule_type: Seq<char>, payload: Seq<char>, target: Seq<char>) -> Seq<
    char,
> {
    rule_type + ","@ + payload + ","@ + target
}

/// Adding the custom rule typed in: an empty payload (after trimming) is refused
/// with a notification; otherwise the rule line goes to the current profile.
#[verifier::opaque]
pub open spec fn rule_add_started(old: AppState, new: AppState, c: Seq<Command>) -> bool {
    let payload = trim(old.new_rule_payload@);
    if payload.len() == 0 {
        new == old && c.len() == 1 && is_toast(c[0], "Payload cannot be empty"@, ToastStatus::Error)
    } else {
        &&& new == AppState { is_adding_rule: true, ..old }
        &&& c.len() == 1
        &&& c[0] matches Command::AddRuleToCurrentProfile(line)
        &&& line@ == rule_line(old.new_rule_type@, payload, old.new_rule_target@)
    }
}

/// A custom rule was added, or failed to be: on success the payload field is
/// cleared, rules reload, the core restarts and a notification says so.
#[verifier::opaque]
pub open spec fn rule_add_finished(
    old: AppState,
    r: Result<(), String>,
    new: AppState,
    c: Seq<Command>,
) -> bool {
    match r {
        Ok(_) => {
            &&& new == AppState { is_adding_rule: false, new_rule_payload: new.new_rule_payload, ..old }
            &&& new.new_rule_payload@.len() == 0
            &&& c.len() == 3
            &&& c[0] == Command::Dispatch(Message::LoadRules)
            &&& c[1] == Command::Dispatch(Message::StartProxy)
            &&& is_toast(c[2], "Rule added and core restarted"@, ToastStatus::Success)
        },
        Err(e) => {
            &&& new == AppState { is_adding_rule: false, error_msg: Some(e), ..old }
            &&& c.len() == 1
            &&& is_toast(c[0], e@, ToastStatus::Error)
        },
    }
}

/// How the profile, editor, WebDAV and custom-rule messages change the state and
/// what work they start; any other message changes nothing here.
pub open spec fn profile_step(old: AppState, m: Message, new: AppState, c: Seq<Command>) -> bool {
    match m {
        Message::LoadProfiles => new == AppState { is_loading_profiles: true, ..old } && c == seq![
            Command::ListProfiles,
        ],
        Message::ProfilesLoaded(r) => profiles_loaded(old, r, new, c),
        Message::SetActiveProfile(name) => new == AppState { error_msg: None, ..old } && c == seq![
            Command::ActivateProfile(name),
        ],
        Message::ImportProfile => import_started(old, new, c),
        Message::ProfileImported(r) => import_finished(old, r, new, c),
        Message::EditProfile(path) => new == old && c == seq![Command::ReadProfile(path)],
        Message::ProfileContentLoaded(r) => content_loaded(old, r, new, c),
        Message::SaveProfile => save_requested(old, new, c),
        Message::ProfileSaved(r) => profile_saved(old, r, new, c),
        Message::SyncUpload => sync_started(old, true, new, c),
        Message::SyncDownload => sync_started(old, false, new, c),
        Message::SyncFinished(r) => sync_finished(old, r, new, c),
        Message::AddCustomRule => rule_add_started(old, new, c),
        Message::RuleAdded(r) => rule_add_finished(old, r, new, c),
        Message::TickWebDavSync => new == old && c == sync_tick_commands(old),
        _ => form_step(old, m, new, c),
    }
}

/// The text fields of the import, editor, WebDAV and custom-rule forms.
#[derive(Clone, Copy, Debug, PartialEq, Eq, Structural)]
pub enum FormField {
    ImportUrl,
    ImportName,
    EditorText,
    WebDavUrl,
    WebDavUser,
    WebDavPass,
    NewRuleType,
    NewRulePayload,
    NewRuleTarget,
}

/// The state with one form field holding new text.
#[verifier::opaque]
pub open spec fn with_form_field(old: AppState, field: FormField, text: String) -> AppState {
    match field {
        FormField::ImportUrl => AppState { import_url: text, ..old },
        FormField::ImportName => AppState { import_name: text, ..old },
        FormField::EditorText => AppState { editor_text: text, ..old },
        FormField::WebDavUrl => AppState { webdav_url: text, ..old },
        FormField::WebDavUser => AppState { webdav_user: text, ..old },
        FormField::WebDavPass => AppState { webdav_pass: text, ..old },
        FormField::NewRuleType => AppState { new_rule_type: text, ..old },
        FormField::NewRulePayload => AppState { new_rule_payload: text, ..old },
        FormField::NewRuleTarget => AppState { new_rule_target: text, ..old },
    }
}

/// The form field that a message types into, with the text; `None` for any
/// other message.
pub open spec fn typed_text(m: Message) -> Option<(FormField, String)> {
    match m {
        Message::UpdateImportUrl(t) => Some((FormField::ImportUrl, t)),
        Message::UpdateImportName(t) => Some((FormField::ImportName, t)),
        Message::EditorTextChanged(t) => Some((FormField::EditorText, t)),
        Message::UpdateWebDavUrl(t) => Some((FormField::WebDavUrl, t)),
        Message::UpdateWebDavUser(t) => Some((FormField::WebDavUser, t)),
        Message::UpdateWebDavPass(t) => Some((FormField::WebDavPass, t)),
        Message::UpdateNewRuleType(t) => Some((FormField::NewRuleType, t)),
        Message::UpdateNewRulePayload(t) => Some((FormField::NewRulePayload, t)),
        Message::UpdateNewRuleTarget(t) => Some((FormField::NewRuleTarget, t)),
        _ => None,
    }
}

/// Typing into a form field: the field takes the text, and no work starts. Any
/// other message changes nothing.
pub open spec fn form_step(old: AppState, m: Message, new: AppState, c: Seq<Command>) -> bool {
    c.len() == 0 && match typed_text(m) {
        Some((field, text)) => new == with_form_field(old, field, text),
        None => new == old,
    }
}

/// The outcome of work that ends in a notification, as commands.
fn report(state: &mut AppState, result: Result<(), String>, ok_text: &str) -> (c: Vec<Command>)
    ensures
        reported(*old(state), result, ok_text@, *final(state), c@),
{
    match result {
        Ok(_) => single(toast(owned(ok_text), ToastStatus::Success)),
        Err(e) => {
            state.error_msg = Some(e.clone());
            single(toast(e, ToastStatus::Error))
        },
    }
}

/// A string made of `a`, a comma, `b`, a comma and `c`.
fn join_rule(a: &str, b: &[char], c: &str) -> (r: String)
    ensures
        r@ == rule_line(a@, b@, c@),
{
    let mut v = str_chars(a);
    v.push(',');
    let mut i: usize = 0;
    let ghost start = v@;
    while i < b.len()
        invariant
            i <= b@.len(),
            v@ == start + b@.take(i as int),
        decreases b@.len() - i,
    {
        v.push(b[i]);
        i = i + 1;
        assert(v@ =~= start + b@.take(i as int));
    }
    v.push(',');
    let tail = str_chars(c);
    let ghost mid = v@;
    let mut j: usize = 0;
    while j < tail.len()
        invariant
            j <= tail@.len(),
            v@ == mid + tail@.take(j as int),
        decreases tail@.len() - j,
    {
        v.push(tail[j]);
        j = j + 1;
        assert(v@ =~= mid + tail@.take(j as int));
    }
    assert(b@.take(b@.len() as int) =~= b@);
    assert(tail@.take(tail@.len() as int) =~= tail@);
    proof {
        reveal_strlit(",");
    }
    assert(v@ =~= rule_line(a@, b@, c@));
    string_from_chars(v.as_slice())
}

impl AppState {
    fn on_profiles_loaded(&mut self, result: Result<Vec<Profile>, String>) -> (c: Vec<Command>)
        ensures
            profiles_loaded(*old(self), result, *final(self), c@),
    {
        reveal(profiles_loaded);
        match result {
            Ok(p) => {
                self.is_loading_profiles = false;
                self.profiles = p;
            },
            Err(e) => {
                self.is_loading_profiles = false;
                self.error_msg = Some(e);
            },
        }
        Vec::new()
    }

    fn on_import_profile(&mut self) -> (c: Vec<Command>)
        ensures
            import_started(*old(self), *final(self), c@),
    {
        reveal(import_started);
        if self.import_url.as_str().is_empty() {
            return Vec::new();
        }
        let url = self.import_url.clone();
        self.is_importing = true;
        single(Command::ImportProfileFromUrl { name: owned("Downloaded"), url })
    }

    fn on_profile_imported(&mut self, result: Result<(), String>) -> (c: Vec<Command>)
        ensures
            import_finished(*old(self), result, *final(self), c@),
    {
        reveal(import_finished);
        match result {
            Ok(_) => {
                self.is_importing = false;
                self.import_url = String::new();
                let mut v: Vec<Command> = Vec::new();
                v.push(Command::Dispatch(Message::LoadProfiles));
                v.push(toast(owned("Profile imported successfully"), ToastStatus::Success));
                v
            },
            Err(e) => {
                self.is_importing = false;
                self.error_msg = Some(e.clone());
                single(toast(e, ToastStatus::Error))
            },
        }
    }

    fn on_content_loaded(&mut self, result: Result<(String, String), String>) -> (c: Vec<Command>)
        ensures
            content_loaded(*old(self), result, *final(self), c@),
    {
        reveal(content_loaded);
        match result {
            Ok((path, content)) => {
                self.editor_path = Some(path);
                self.editor_text = content;
                dispatch(Message::Navigate(Route::Editor))
            },
            Err(e) => {
                self.error_msg = Some(e);
                Vec::new()
            },
        }
    }

    fn on_save_profile(&self) -> (c: Vec<Command>)
        ensures
            save_requested(*self, *self, c@),
    {
        reveal(save_requested);
        match &self.editor_path {
            Some(p) => single(
                Command::WriteProfile { path: p.clone(), content: self.editor_text.clone() },
            ),
            None => Vec::new(),
        }
    }

    fn on_profile_saved(&mut self, result: Result<(), String>) -> (c: Vec<Command>)
        ensures
            profile_saved(*old(self), result, *final(self), c@),
    {
        reveal(profile_saved);
        report(self, result, "Profile saved")
    }

    fn on_sync_start(&mut self, upload: bool) -> (c: Vec<Command>)
        ensures
            sync_started(*old(self), upload, *final(self), c@),
    {
        reveal(sync_started);
        let url = self.webdav_url.clone();
        let user = self.webdav_user.clone();
        let pass = self.webdav_pass.clone();
        self.is_syncing = true;
        if upload {
            single(Command::WebDavUpload { url, user, pass })
        } else {
            single(Command::WebDavDownload { url, user, pass })
        }
    }

    fn sync_tick(&self) -> (c: Vec<Command>)
        ensures
            c@ == sync_tick_commands(*self),
    {
        if !self.webdav_url.as_str().is_empty() && !self.webdav_user.as_str().is_empty() {
            dispatch(Message::SyncUpload)
        } else {
            Vec::new()
        }
    }

    fn on_sync_finished(&mut self, result: Result<(), String>) -> (c: Vec<Command>)
        ensures
            sync_finished(*old(self), result, *final(self), c@),
    {
        reveal(sync_finished);
        match result {
            Ok(_) => {
                self.is_syncing = false;
                single(toast(owned("Sync completed"), ToastStatus::Success))
            },
            Err(e) => {
                self.is_syncing = false;
                self.error_msg = Some(e.clone());
                single(toast(e, ToastStatus::Error))
            },
        }
    }

    fn on_add_custom_rule(&mut self) -> (c: Vec<Command>)
        ensures
            rule_add_started(*old(self), *final(self), c@),
    {
        reveal(rule_add_started);
        let chars = str_chars(self.new_rule_payload.as_str());
        let payload = trim_chars(chars.as_slice());
        if payload.len() == 0 {
            return single(toast(owned("Payload cannot be empty"), ToastStatus::Error));
        }
        let line = join_rule(self.new_rule_type.as_str(), payload.as_slice(), self.new_rule_target.as_str());
        self.is_adding_rule = true;
        single(Command::AddRuleToCurrentProfile(line))
    }

    fn on_rule_added(&mut self, result: Result<(), String>) -> (c: Vec<Command>)
        ensures
            rule_add_finished(*old(self), result, *final(self), c@),
    {
        reveal(rule_add_finished);
        match result {
            Ok(_) => {
                self.is_adding_rule = false;
                self.new_rule_payload = String::new();
                let mut v: Vec<Command> = Vec::new();
                v.push(Command::Dispatch(Message::LoadRules));
                v.push(Command::Dispatch(Message::StartProxy));
                v.push(toast(owned("Rule added and core restarted"), ToastStatus::Success));
                v
            },
            Err(e) => {
                self.is_adding_rule = false;
                self.error_msg = Some(e.clone());
                single(toast(e, ToastStatus::Error))
            },
        }
    }

    /// Handles the profile, editor, WebDAV and custom-rule messages.
    pub fn update_profile(&mut self, message: Message) -> (c: Vec<Command>)
        ensures
            profile_step(*old(self), message, *final(self), c@),
    {
        match message {
            Message::LoadProfiles => {
                self.is_loading_profiles = true;
                single(Command::ListProfiles)
            },
            Message::ProfilesLoaded(result) => self.on_profiles_loaded(result),
            Message::SetActiveProfile(name) => {
                self.error_msg = None;
                single(Command::ActivateProfile(name))
            },
            Message::ImportProfile => self.on_import_profile(),
            Message::ProfileImported(result) => self.on_profile_imported(result),
            Message::EditProfile(path) => single(Command::ReadProfile(path)),
            Message::ProfileContentLoaded(result) => self.on_content_loaded(result),
            Message::SaveProfile => self.on_save_profile(),
            Message::ProfileSaved(result) => self.on_profile_saved(result),
            Message::SyncUpload => self.on_sync_start(true),
            Message::SyncDownload => self.on_sync_start(false),
            Message::SyncFinished(result) => self.on_sync_finished(result),
            Message::AddCustomRule => self.on_add_custom_rule(),
            Message::RuleAdded(result) => self.on_rule_added(result),
            Message::TickWebDavSync => self.sync_tick(),
            _ => self.update_form(message),
        }
    }

    /// Puts text into one form field.
    fn set_form_field(&mut self, field: FormField, text: String)
        ensures
            *final(self) == with_form_field(*old(self), field, text),
    {
        match field {
            FormField::ImportUrl => self.set_import_url(text),
            FormField::ImportName => self.set_import_name(text),
            FormField::EditorText => self.set_editor_text(text),
            FormField::WebDavUrl => self.set_webdav_url(text),
            FormField::WebDavUser => self.set_webdav_user(text),
            FormField::WebDavPass => self.set_webdav_pass(text),
            FormField::NewRuleType => self.set_new_rule_type(text),
            FormField::NewRulePayload => self.set_new_rule_payload(text),
            FormField::NewRuleTarget => self.set_new_rule_target(text),
        }
    }

    fn set_import_url(&mut self, text: String)
        ensures
            *final(self) == with_form_field(*old(self), FormField::ImportUrl, text),
    {
        reveal(with_form_field);
        self.import_url = text;
    }

    fn set_import_name(&mut self, text: String)
        ensures
            *final(self) == with_form_field(*old(self), FormField::ImportName, text),
    {
        reveal(with_form_field);
        self.import_name = text;
    }

    fn set_editor_text(&mut self, text: String)
        ensures
            *final(self) == with_form_field(*old(self), FormField::EditorText, text),
    {
        reveal(with_form_field);
        self.editor_text = text;
    }

    fn set_webdav_url(&mut self, text: String)
        ensures
            *final(self) == with_form_field(*old(self), FormField::WebDavUrl, text),
    {
        reveal(with_form_field);
        self.webdav_url = text;
    }

    fn set_webdav_user(&mut self, text: String)
        ensures
            *final(self) == with_form_field(*old(self), FormField::WebDavUser, text),
    {
        reveal(with_form_field);
        self.webdav_user = text;
    }

    fn set_webdav_pass(&mut self, text: String)
        ensures
            *final(self) == with_form_field(*old(self), FormField::WebDavPass, text),
    {
        reveal(with_form_field);
        self.webdav_pass = text;
    }

    fn set_new_rule_type(&mut self, text: String)
        ensures
            *final(self) == with_form_field(*old(self), FormField::NewRuleType, text),
    {
        reveal(with_form_field);
        self.new_rule_type = text;
    }

    fn set_new_rule_payload(&mut self, text: String)
        ensures
            *final(self) == with_form_field(*old(self), FormField::NewRulePayload, text),
    {
        reveal(with_form_field);
        self.new_rule_payload = text;
    }

    fn set_new_rule_target(&mut self, text: String)
        ensures
            *final(self) == with_form_field(*old(self), FormField::NewRuleTarget, text),
    {
        reveal(with_form_field);
        self.new_rule_target = text;
    }

    /// Handles typing into the form fields.
    fn update_form(&mut self, message: Message) -> (c: Vec<Command>)
        ensures
            form_step(*old(self), message, *final(self), c@),
    {
        let typed = match message {
            Message::UpdateImportUrl(t) => Some((FormField::ImportUrl, t)),
            Message::UpdateImportName(t) => Some((FormField::ImportName, t)),
            Message::EditorTextChanged(t) => Some((FormField::EditorText, t)),
            Message::UpdateWebDavUrl(t) => Some((FormField::WebDavUrl, t)),
            Message::UpdateWebDavUser(t) => Some((FormField::WebDavUser, t)),
            Message::UpdateWebDavPass(t) => Some((FormField::WebDavPass, t)),
            Message::UpdateNewRuleType(t) => Some((FormField::NewRuleType, t)),
            Message::UpdateNewRulePayload(t) => Some((FormField::NewRulePayload, t)),
            Message::UpdateNewRuleTarget(t) => Some((FormField::NewRuleTarget, t)),
            _ => None,
        };
        if let Some((field, text)) = typed {
            self.set_form_field(field, text);
        }
        Vec::new()
    }
}

} // verus!
