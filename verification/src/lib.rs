//! The logic of CodexPotter: projects, rounds, and the sessions that drive them.

pub mod cli;
pub mod cli_help;
pub mod cli_laws;
pub mod client;
pub mod codex_compat;
pub mod compat_home;
pub mod exec;
pub mod exec_emitter;
pub mod exec_events;
pub mod exec_human;
pub mod exec_human_laws;
pub mod exec_json;
pub mod exec_json_laws;
pub mod exec_json_stream_laws;
pub mod front_matter;
pub mod front_matter_laws;
pub mod history_cell;
pub mod launch;
pub mod main_session;
pub mod main_session_laws;
pub mod notes;
pub mod path_laws;
pub mod paths;
pub mod potter_protocol;
pub mod project;
pub mod project_laws;
pub mod project_setup;
pub mod project_setup_laws;
pub mod protocol;
pub mod rounds;
pub mod runtime_log;
pub mod startup;
pub mod stream_recovery;
pub mod text;
pub mod text_laws;
pub mod token_usage;
