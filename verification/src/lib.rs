//! Verified core of the Wazuh agent status tray client.
pub mod text;
pub mod patterns;
pub mod version_checker;
pub mod backend_client;
pub mod tray;
pub mod logging;
pub mod cli;
pub mod laws;
