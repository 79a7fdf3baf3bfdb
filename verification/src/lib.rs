//! Library for sweeping a social-media account's own post history and
//! deleting the posts that are older than a configured retention window.
//!
//! The library holds the verified core of the tool: the age classifier,
//! the configuration values, and the sweep controller, modelled as a state
//! machine that an unverified driver advances by reporting the outcome of
//! each remote call (authenticate, fetch a page, delete a post).

pub mod cli;
mod clock;
pub mod config;
pub mod laws;
pub mod render;
pub mod status;
pub mod sweep;
