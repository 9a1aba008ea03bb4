//! Bridge core between a publish/subscribe broker and a relational store.
//!
//! The crate holds the two verified subsystems of the bridge: the resilient
//! session manager, a connection/subscription state machine that keeps a
//! long-lived broker session alive across network failures, and the dynamic
//! record translator, which turns a self-describing message payload into a
//! parameterized insert statement for a table whose column set is only known
//! at run time.  Broker transport and SQL execution stay outside: the session
//! manager hands its driver explicit directives, and the translator hands the
//! storage sink a finished statement with bound values.

pub mod config;
pub mod forward;
pub mod mapping;
pub mod options;
pub mod payload;
pub mod registry;
pub mod session;
pub mod translate;

use vstd::prelude::*;

verus! {

/// A fatal configuration error: reported once at startup, never retried.
#[derive(Debug, Clone, Copy, PartialEq, Eq, Structural)]
pub enum ConfigError {
    /// A subscription's delivery quality is outside {0, 1, 2}.
    InvalidQos,
    /// A retain-handling code is outside {0, 1, 2}.
    InvalidRetainHandling,
    /// The topic, quality and option vectors of a registry differ in length.
    MismatchedSubscriptionVectors,
}

impl ConfigError {
    /// A short description of the error, for operator-facing logs.
    pub fn message(&self) -> (r: &'static str)
        ensures
            r@ == self.spec_message(),
    {
        match self {
            ConfigError::InvalidQos => "delivery quality must be 0, 1 or 2",
            ConfigError::InvalidRetainHandling => "retain-handling code must be 0, 1 or 2",
            ConfigError::MismatchedSubscriptionVectors => "subscription vectors differ in length",
        }
    }

    pub open spec fn spec_message(&self) -> Seq<char> {
        match self {
            ConfigError::InvalidQos => "delivery quality must be 0, 1 or 2"@,
            ConfigError::InvalidRetainHandling => "retain-handling code must be 0, 1 or 2"@,
            ConfigError::MismatchedSubscriptionVectors => "subscription vectors differ in length"@,
        }
    }
}

} // verus!
