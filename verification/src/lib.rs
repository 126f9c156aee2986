//! Dispatch core of a Model-View-Update user interface framework.
//!
//! Side effects and event subscriptions are plain descriptions that a host
//! runtime carries out. The library builds those descriptions, flattens them,
//! decides which listeners a raw host event reaches, queues what they deliver
//! and drives the synchronous update loop.

pub mod asset;
pub mod browser;
pub mod failure;
pub mod page;
pub mod text;
pub mod time;
