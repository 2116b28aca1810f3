//! Registration admission and waiting-list engine of an association backend.
//!
//! The crate decides whether a signup for a capacity-limited event becomes a
//! confirmed seat or a slot on the waiting list, and promotes and compacts
//! the list as people join, leave or are moved by an administrator.
//!
//! Creating, updating and deleting a registration through `api::event` keep
//! the waiting list of every event gapless: its positions are `0` to `n - 1`,
//! each held once. So does every operation of the store that moves a
//! registration: leaving the list, taking its front or its tail, and
//! deleting. The one operation that can break a list is
//! `EventStore::insert`, which writes the position it is given and keeps a
//! list gapless for a registration that holds a confirmed seat or joins at
//! the tail. Every function is verified against the contract it carries.

pub mod error;
pub mod validate;
pub mod auth;
pub mod wire;
pub mod data_source;
pub mod clock;
pub mod identifier;
pub mod password;
pub mod api;
pub mod laws;
