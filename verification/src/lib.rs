//! Tells, for a batch of domain names, whether each is registered and how
//! long its registration still runs.
//!
//! The library decides and words; the caller does the network's part. For
//! each domain the caller asks [`retry::RetryState`] what to do next,
//! selects the server with [`resolver::select_server`], sends one query,
//! hands what came back to [`resolver::conclude`] and the result to
//! [`retry::RetryState::finish_attempt`]. A domain is attempted up to three
//! times and then gets exactly one [`report::DomainReport`], whose status
//! line tells the time left in words ([`duration`]) and in the colour of
//! its urgency ([`tier`]).

pub mod duration;
pub mod error;
pub mod record;
pub mod report;
pub mod resolver;
pub mod retry;
pub mod tier;
pub mod time;
pub mod utils;

pub use crate::error::KnockKnockError;
pub use crate::report::highlight_text;
pub use crate::utils::pluralize;
