# infiltrator

The logic of the MusicFrog Infiltrator desktop client for mihomo proxy cores,
as a library verified with Verus, and the desktop shell around it.

- `src/` — the verified library.
  - `state.rs`, `message.rs`, `model.rs`: the application state, the messages it
    reacts to, the commands it hands to the shell, and the plain data it holds.
  - `update.rs`, `update_ui.rs`, `update_profile.rs`, `update_core.rs`: how each
    message changes the state and which work it starts (`AppState::update`),
    stated as `step`, `ui_step`, `profile_step` and `core_step`.
  - `proxies.rs`: the proxy table (one entry per name), delay lookup, filtering and stable sorting of
    group members, and the group list of the proxies page.
  - `view_model.rs`: what the pages show (rule fields, targets, delay colours,
    connection order, member grid, sidebar, chart scale, tray menu).
  - `subscription.rs`: decoding and masking of subscription downloads.
  - `profile_yaml.rs`: putting a custom rule first in a profile.
  - `locales.rs`: the Chinese and English texts.
  - `describe.rs`: how messages are written to the log.
  - `platform.rs`: the data directory override.
  - `laws.rs`: properties that span several messages or functions.
- `tests/` — tests of the library.
- `app/` — the iced window, the tray, and the shell that carries out commands.
