# codex_switch

The logic of a Codex account switcher, verified with Verus: saved
`config.toml`/`auth.json` profiles and their store, the settings merge of the
save command, reading the output of `codex login --device-auth`, and
restarting or closing the external Codex App on macOS, Windows and Linux.

Layout:

- `src/` — the verified library. Text primitives (`text`), the Codex
  configuration and auth files (`config_text`, `codex_config`, `toml_doc`,
  `auth`, `digest`), profiles and the account page (`profiles`,
  `account_ops`), settings (`settings`), device login (`device_auth`), and
  the restart procedures as machines that name the next command from the
  outcome of the previous one (`restart`, `mac_app`, `windows_proc`,
  `windows_text`, `windows_restart`, `linux_proc`, `update`).
- `tests/` — tests of the library on concrete values.
- `app/` — the commands around the library: files, processes, threads and
  JSON (de)serialisation with serde copies of the library's types, and the
  loops that run the settings-save and update machines against the host
  application's settings store and updater.
