//! Administration library for a netboot/VM-provisioning server driven through
//! host command-line tools.
//!
//! The library holds the decision logic: the privilege policy that gates
//! command execution, the credential-session state machine, the reconciler
//! that fuses unreliable container-listing signals into one existence verdict,
//! and the container lifecycle rules (duplicate rejection, bounded
//! post-create confirmation, idempotent destroy).  Every shell command is
//! produced here as a plain string with a contract; running processes,
//! reading files and talking to the network are left to the surrounding
//! application.

pub mod api_client;
pub mod capabilities;
pub mod distribution;
pub mod executor;
pub mod gui;
pub mod host;
pub mod input;
pub mod install_menu;
pub mod installer;
pub mod logger;
pub mod lxc;
pub mod main_menu;
pub mod policy;
pub mod reconcile;
pub mod session;
pub mod terminal;
pub mod text;
pub mod ui;
pub mod utils;
pub mod vm;
