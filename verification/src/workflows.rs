//! The workflows that compose the stages.

pub mod author_entry;
pub mod hold_entry;
