//! What the operations promise their callers.
//!
//! Each law speaks of calls: of what goes into them, of what comes out, and of
//! how the results of several calls relate. It is stated over the contracts of
//! the functions themselves, in plain numbers.

pub mod container;
pub mod decoding;
pub mod encoding;
pub mod messages;
pub mod resizing;
pub mod transcoding;
pub mod values;
