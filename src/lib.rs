//! Fetching variable-length, host-described records into buffers that are
//! sized and aligned for them, with the ownership of each buffer tracked
//! from allocation to adoption or release.

pub mod fetch;
pub mod layout;
pub mod ownership;
