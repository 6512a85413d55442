pub mod text;
pub mod config_text;
pub mod device_auth;
pub mod settings;
pub mod windows_text;
pub mod linux_proc;
pub mod digest;
pub mod auth;
pub mod toml_doc;
pub mod codex_config;
pub mod profiles;
pub mod account_ops;
pub mod windows_proc;
pub mod restart;
pub mod windows_restart;
pub mod mac_app;
pub mod update;
