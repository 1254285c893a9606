//! Placeholder credentials for checked-in configuration files.
//!
//! A shared configuration file carries placeholder tokens in place of live
//! secrets; a local secret store supplies the real values. This library holds
//! the credential names and their tokens, the forward and inverse text
//! transforms between them, the resolve-or-prompt-and-persist policy, and the
//! per-run decisions of the command-line tool.
pub mod credential;
pub mod memory;
pub mod os_store;
pub mod report;
pub mod resolve;
pub mod run;
pub mod text;
pub mod transform;
