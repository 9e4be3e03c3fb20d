//! Decisions behind a coding agent's session: whose access token is in use, what its exec server
//! reports, how the model may change its workspace, and what its terminal shows and clears.
//!
//! Every function states in its contract what it does, and is proved to do it, save for two facts
//! about the standard library that are trusted: how a string is printed, and that a copy of a path
//! is that path. What needs a file system, a network, a process or a terminal is asked of a host:
//! the functions here say what to ask for, and what follows from what came back.
pub mod authapi;
pub mod compression;
pub mod desktop;
pub mod desktop_laws;
pub mod history_ui;
pub mod personal_access_token;
pub mod telemetry;
pub mod telemetry_laws;
pub mod text;
pub mod view_laws;
pub mod workspace;
pub mod workspace_exchange;
pub mod workspace_laws;
pub mod workspace_mutation;
pub mod workspace_mutation_spec;
pub mod workspace_path;
pub mod workspace_session_laws;
