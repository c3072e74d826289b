pub mod text;
pub mod fields;
pub mod envvars;
pub mod fsutil;
pub mod clock;
pub mod config;
pub mod failover;
pub mod connection_watch;
pub mod session_checkpoint;
pub mod rate_limit_watch;
pub mod lpad_monitor;
pub mod lpad_thread_store;
pub mod process_util;
pub mod toml_doc;
pub mod lpad_config;
pub mod codex_config;
pub mod cli;
pub mod web_backend;
pub mod ollama;
pub mod launcher;
pub mod diagnose;
pub mod discovery_log;
pub mod acp_client;
pub mod session_monitor;
pub mod codex_monitor;
pub mod lpad_process;
pub mod app_logic;
pub mod lpad_app_server;
pub mod ipc;
