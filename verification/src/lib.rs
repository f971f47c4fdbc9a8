//! Idle-aware UDP forwarding proxy for a single backend game server.
//!
//! The crate models the proxy's lifecycle logic — backend supervision,
//! per-client session tracking, and the inactivity watchdog — as a verified
//! state machine, together with the pure parts of the server setup steps
//! (settings generation, world selection, and startup diagnostics).

use vstd::prelude::*;

pub mod activity;
pub mod addr;
pub mod config;
pub mod proxy;
pub mod server;
pub mod sessions;
pub mod state;
pub mod supervisor;

verus! {

/// Outcome of one server setup step, carrying a human-readable message.
#[derive(Clone)]
pub enum ServerSetupCheck {
    OK { message: String },
    WARNING { message: String },
    ERROR { message: String },
}

impl ServerSetupCheck {
    /// The message carried by the check, whatever its severity.
    pub open spec fn spec_message(&self) -> Seq<char> {
        match self {
            ServerSetupCheck::OK { message } => message@,
            ServerSetupCheck::WARNING { message } => message@,
            ServerSetupCheck::ERROR { message } => message@,
        }
    }

    pub open spec fn is_error(&self) -> bool {
        self matches ServerSetupCheck::ERROR { .. }
    }

    pub open spec fn is_warning(&self) -> bool {
        self matches ServerSetupCheck::WARNING { .. }
    }

    pub open spec fn is_ok_check(&self) -> bool {
        self matches ServerSetupCheck::OK { .. }
    }

    /// The message carried by the check.
    pub fn message(&self) -> (m: &String)
        ensures
            m@ == self.spec_message(),
    {
        match self {
            ServerSetupCheck::OK { message } => message,
            ServerSetupCheck::WARNING { message } => message,
            ServerSetupCheck::ERROR { message } => message,
        }
    }

    /// Whether the check reports a fatal setup problem.
    pub fn failed(&self) -> (r: bool)
        ensures
            r == self.is_error(),
    {
        match self {
            ServerSetupCheck::ERROR { .. } => true,
            _ => false,
        }
    }
}

} // verus!
