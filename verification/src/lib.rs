//! Per-member time-to-live for keyed collections.
//!
//! A caller attaches a time-to-live to one member of a collection (a field of
//! a hash, an element of a set, an entry of a sorted set). The engine keeps the
//! due-time of every such member, hands newly scheduled members to a reaper
//! through a bounded queue, and tells the host which members to remove once
//! their due-time has passed.

pub mod command;
pub mod engine;
pub mod heap;
pub mod index;
pub mod laws;
pub mod member;
pub mod queue;
pub mod reaper;
pub mod store;
pub mod ttl;
