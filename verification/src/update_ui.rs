use crate::message::{Command, Message};
use crate::model::{Route, ThemeMode, ToastStatus, TrayEvent};
use crate::state::{AppState, SystemSwitches};
use crate::text::{chars_start_with, has_prefix, owned, str_chars, str_equal, string_from_chars};
use crate::update::{dispatch, remove_if_in, single, without_index};
use vstd::prelude::*;

verus! {

/// The work that opening a page starts: the proxies page and the overview load
/// the proxies, the runtime page asks for the public IP, and the rules page loads
/// rules and providers.
pub open spec fn navigate_commands(route: Route) -> Seq<Command> {
    if route == Route::Proxies || route == Route::Overview {
        seq![Command::Dispatch(Message::LoadProxies)]
    } else if route == Route::Runtime {
        seq![Command::Dispatch(Message::FetchIpInfo)]
    } else if route == Route::Rules {
        seq![Command::Dispatch(Message::LoadRules), Command::Dispatch(Message::LoadProviders)]
    } else {
        seq![]
    }
}

/// The other theme.
pub open spec fn other_theme(t: ThemeMode) -> ThemeMode {
    match t {
        ThemeMode::Dark => ThemeMode::Light,
        ThemeMode::Light => ThemeMode::Dark,
    }
}

/// What choosing a tray menu item asks for, by the item's id.
pub open spec fn menu_step(old: AppState, id: Seq<char>, c: Seq<Command>) -> bool {
    if id == "show"@ {
        c == seq![Command::Dispatch(Message::ShowWindow)]
    } else if id == "quit"@ {
        c == seq![Command::Dispatch(Message::Exit)]
    } else if id == "toggle_theme"@ {
        c == seq![Command::Dispatch(Message::ToggleTheme)]
    } else if id == "mode_rule"@ {
        c.len() == 1 && (c[0] matches Command::Dispatch(Message::SetProxyMode(m)) && m@ == "rule"@)
    } else if id == "mode_global"@ {
        c.len() == 1 && (c[0] matches Command::Dispatch(Message::SetProxyMode(m)) && m@
            == "global"@)
    } else if id == "mode_direct"@ {
        c.len() == 1 && (c[0] matches Command::Dispatch(Message::SetProxyMode(m)) && m@
            == "direct"@)
    } else if id == "mode_script"@ {
        c.len() == 1 && (c[0] matches Command::Dispatch(Message::SetProxyMode(m)) && m@
            == "script"@)
    } else if id == "toggle_system_proxy"@ {
        c == seq![Command::Dispatch(Message::SetSystemProxy(!old.switches.system_proxy_enabled))]
    } else if id == "toggle_tun"@ {
        c == seq![
            Command::Dispatch(
                Message::SetTunEnabled(
                    !(match old.tun_enabled {
                        Some(b) => b,
                        None => false,
                    }),
                ),
            ),
        ]
    } else if has_prefix(id, "proxy_GLOBAL_"@) {
        c.len() == 1 && (c[0] matches Command::Dispatch(Message::SelectProxy(g, n)) && g@
            == "GLOBAL"@ && n@ == id.skip("proxy_GLOBAL_"@.len() as int))
    } else {
        c.len() == 0
    }
}

/// Opening a page: the page becomes current, and `navigate_commands` says what work starts.
#[verifier::opaque]
pub open spec fn navigated(old: AppState, route: Route, new: AppState, c: Seq<Command>) -> bool {
    new == AppState { current_route: route, ..old } && c == navigate_commands(route)
}

/// Switching theme: the other theme, no work.
#[verifier::opaque]
pub open spec fn theme_toggled(old: AppState, new: AppState, c: Seq<Command>) -> bool {
    new == AppState { theme: other_theme(old.theme), ..old } && c.len() == 0
}

/// Quitting: the core is no longer held, and the shell shuts it down and exits.
#[verifier::opaque]
pub open spec fn exited(old: AppState, new: AppState, c: Seq<Command>) -> bool {
    new == AppState { has_runtime: false, ..old } && c == seq![Command::ExitApp]
}

/// Showing a notification: it goes last in the list, and is removed again by
/// its position five seconds later.
#[verifier::opaque]
pub open spec fn toast_shown(
    old: AppState,
    text: String,
    status: ToastStatus,
    new: AppState,
    c: Seq<Command>,
) -> bool {
    &&& new == AppState { toasts: new.toasts, ..old }
    &&& new.toasts@ == old.toasts@.push((text, status))
    &&& c == seq![Command::RemoveToastLater(old.toasts@.len() as usize)]
}

/// Removing a notification by position; a position past the end changes nothing.
#[verifier::opaque]
pub open spec fn toast_removed(old: AppState, i: usize, new: AppState, c: Seq<Command>) -> bool {
    &&& new == AppState { toasts: new.toasts, ..old }
    &&& new.toasts@ == without_index(old.toasts@, i)
    &&& c.len() == 0
}

/// Asking for the system proxy on or off: the switch shows the request at once,
/// the setting from before is kept for a refusal, and the shell applies it.
#[verifier::opaque]
pub open spec fn system_proxy_requested(old: AppState, on: bool, new: AppState, c: Seq<Command>) -> bool {
    &&& new == AppState {
        switches: SystemSwitches {
            system_proxy_enabled: on,
            system_proxy_before_request: old.switches.system_proxy_enabled,
            ..old.switches
        },
        ..old
    }
    &&& c == seq![Command::ApplySystemProxy(on)]
}

/// The system proxy change came back: on failure the switch goes back to the
/// setting from before the request and the error is shown.
#[verifier::opaque]
pub open spec fn system_proxy_applied(
    old: AppState,
    r: Result<(), String>,
    new: AppState,
    c: Seq<Command>,
) -> bool {
    c.len() == 0 && match r {
        Ok(_) => new == old,
        Err(e) => new == AppState {
            switches: SystemSwitches {
                system_proxy_enabled: old.switches.system_proxy_before_request,
                ..old.switches
            },
            error_msg: Some(e),
            ..old
        },
    }
}

/// How the window, theme, notification, tray and system-proxy messages change the
/// state and what work they start; any other message changes nothing here.
pub open spec fn ui_step(old: AppState, m: Message, new: AppState, c: Seq<Command>) -> bool {
    match m {
        Message::Navigate(route) => navigated(old, route, new, c),
        Message::ToggleTheme => theme_toggled(old, new, c),
        Message::WindowClosed(id) => new == old && c == seq![
            Command::CloseWindow { id, route: old.current_route },
        ],
        Message::HideWindow => new == old && c == seq![
            Command::HideWindow { route: old.current_route },
        ],
        Message::ShowWindow => new == old && c == seq![Command::ShowWindow],
        Message::Exit => exited(old, new, c),
        Message::ShowToast(text, status) => toast_shown(old, text, status, new, c),
        Message::RemoveToast(i) => toast_removed(old, i, new, c),
        Message::SetSystemProxy(on) => system_proxy_requested(old, on, new, c),
        Message::SystemProxySet(r) => system_proxy_applied(old, r, new, c),
        Message::RequestAdminPrivilege => new == old && c == seq![Command::RequestElevation],
        Message::TrayIconEvent(ev) => new == old && c == (if ev == TrayEvent::Click {
            seq![Command::Dispatch(Message::ShowWindow)]
        } else {
            seq![]
        }),
        Message::MenuEvent(id) => new == old && menu_step(old, id@, c),
        _ => new == old && c.len() == 0,
    }
}

impl AppState {
    /// What a tray menu item asks for.
    fn menu_commands(&self, id: &str) -> (c: Vec<Command>)
        ensures
            menu_step(*self, id@, c@),
    {
        if str_equal(id, "show") {
            dispatch(Message::ShowWindow)
        } else if str_equal(id, "quit") {
            dispatch(Message::Exit)
        } else if str_equal(id, "toggle_theme") {
            dispatch(Message::ToggleTheme)
        } else if str_equal(id, "mode_rule") {
            dispatch(Message::SetProxyMode(owned("rule")))
        } else if str_equal(id, "mode_global") {
            dispatch(Message::SetProxyMode(owned("global")))
        } else if str_equal(id, "mode_direct") {
            dispatch(Message::SetProxyMode(owned("direct")))
        } else if str_equal(id, "mode_script") {
            dispatch(Message::SetProxyMode(owned("script")))
        } else if str_equal(id, "toggle_system_proxy") {
            dispatch(Message::SetSystemProxy(!self.switches.system_proxy_enabled))
        } else if str_equal(id, "toggle_tun") {
            let on = match self.tun_enabled {
                Some(b) => b,
                None => false,
            };
            dispatch(Message::SetTunEnabled(!on))
        } else {
            let chars = str_chars(id);
            let prefix = str_chars("proxy_GLOBAL_");
            if chars_start_with(chars.as_slice(), prefix.as_slice()) {
                let start = prefix.len();
                let mut rest: Vec<char> = Vec::new();
                let mut i: usize = start;
                while i < chars.len()
                    invariant
                        start <= i <= chars@.len(),
                        rest@ == chars@.subrange(start as int, i as int),
                    decreases chars@.len() - i,
                {
                    rest.push(chars[i]);
                    i = i + 1;
                    assert(rest@ =~= chars@.subrange(start as int, i as int));
                }
                assert(rest@ =~= id@.skip(start as int));
                dispatch(Message::SelectProxy(owned("GLOBAL"), string_from_chars(rest.as_slice())))
            } else {
                Vec::new()
            }
        }
    }

    fn on_navigate(&mut self, route: Route) -> (c: Vec<Command>)
        ensures
            navigated(*old(self), route, *final(self), c@),
    {
        reveal(navigated);
        self.current_route = route;
        if route == Route::Proxies || route == Route::Overview {
            return dispatch(Message::LoadProxies);
        }
        if route == Route::Runtime {
            return dispatch(Message::FetchIpInfo);
        }
        if route == Route::Rules {
            let mut v: Vec<Command> = Vec::new();
            v.push(Command::Dispatch(Message::LoadRules));
            v.push(Command::Dispatch(Message::LoadProviders));
            assert(v@ =~= navigate_commands(route));
            return v;
        }
        let v: Vec<Command> = Vec::new();
        assert(v@ =~= navigate_commands(route));
        v
    }

    fn on_toggle_theme(&mut self) -> (c: Vec<Command>)
        ensures
            theme_toggled(*old(self), *final(self), c@),
    {
        reveal(theme_toggled);
        self.theme = match self.theme {
            ThemeMode::Dark => ThemeMode::Light,
            ThemeMode::Light => ThemeMode::Dark,
        };
        Vec::new()
    }

    fn on_exit(&mut self) -> (c: Vec<Command>)
        ensures
            exited(*old(self), *final(self), c@),
    {
        reveal(exited);
        self.has_runtime = false;
        single(Command::ExitApp)
    }

    fn on_show_toast(&mut self, text: String, status: ToastStatus) -> (c: Vec<Command>)
        ensures
            toast_shown(*old(self), text, status, *final(self), c@),
    {
        reveal(toast_shown);
        self.toasts.push((text, status));
        let index = self.toasts.len() - 1;
        single(Command::RemoveToastLater(index))
    }

    fn on_remove_toast(&mut self, index: usize) -> (c: Vec<Command>)
        ensures
            toast_removed(*old(self), index, *final(self), c@),
    {
        reveal(toast_removed);
        remove_if_in(&mut self.toasts, index);
        Vec::new()
    }

    fn on_set_system_proxy(&mut self, on: bool) -> (c: Vec<Command>)
        ensures
            system_proxy_requested(*old(self), on, *final(self), c@),
    {
        reveal(system_proxy_requested);
        self.switches.system_proxy_before_request = self.switches.system_proxy_enabled;
        self.switches.system_proxy_enabled = on;
        single(Command::ApplySystemProxy(on))
    }

    fn on_system_proxy_set(&mut self, result: Result<(), String>) -> (c: Vec<Command>)
        ensures
            system_proxy_applied(*old(self), result, *final(self), c@),
    {
        reveal(system_proxy_applied);
        match result {
            Ok(_) => {},
            Err(e) => {
                self.switches.system_proxy_enabled = self.switches.system_proxy_before_request;
                self.error_msg = Some(e);
            },
        }
        Vec::new()
    }

    /// Handles the window, theme, notification, tray and system-proxy messages.
    pub fn update_ui(&mut self, message: Message) -> (c: Vec<Command>)
        ensures
            ui_step(*old(self), message, *final(self), c@),
    {
        match message {
            Message::Navigate(route) => self.on_navigate(route),
            Message::ToggleTheme => self.on_toggle_theme(),
            Message::WindowClosed(id) => single(Command::CloseWindow { id, route: self.current_route }),
            Message::HideWindow => single(Command::HideWindow { route: self.current_route }),
            Message::ShowWindow => single(Command::ShowWindow),
            Message::Exit => self.on_exit(),
            Message::ShowToast(text, status) => self.on_show_toast(text, status),
            Message::RemoveToast(index) => self.on_remove_toast(index),
            Message::SetSystemProxy(on) => self.on_set_system_proxy(on),
            Message::SystemProxySet(result) => self.on_system_proxy_set(result),
            Message::RequestAdminPrivilege => single(Command::RequestElevation),
            Message::TrayIconEvent(event) => {
                match event {
                    TrayEvent::Click => dispatch(Message::ShowWindow),
                    TrayEvent::Other => Vec::new(),
                }
            },
            Message::MenuEvent(id) => self.menu_commands(id.as_str()),
            _ => Vec::new(),
        }
    }
}

} // verus!
