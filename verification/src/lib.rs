//! Registration and rollback manager for a contiguous block of character-device slots.
//!
//! The library decides; the caller performs. A [`builder::Builder`] collects the
//! configuration, [`builder::Builder::build`] turns it into a pending
//! [`registration::Build`], and each call of [`registration::Build::step`] consumes the
//! reply to the action that was pending and yields the next one, until the block is
//! either fully registered or fully rolled back.

pub mod builder;
pub mod error;
pub mod guarantees;
pub mod name;
pub mod protocol;
pub mod registration;
pub mod slot;
pub mod world;
