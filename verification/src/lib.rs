//! Core logic of the JJS judging system: the in-memory repository of runs,
//! invocations and users, contest views, command building and the decisions
//! of the frontend servers.
pub mod schema;
pub mod ids;
pub mod memory;
pub mod repo_laws;
pub mod command;
pub mod command_laws;
pub mod decimal;
pub mod build_ctx;
pub mod devtool_build;
pub mod contest;
pub mod engine;
pub mod frontend;
pub mod root_auth;
pub mod submission;
pub mod invoke_status;
pub mod profile;
pub mod build_laws;
