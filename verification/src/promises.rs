//! What calls of the library's functions promise, in terms of what goes in and what comes out.
//!
//! Each law speaks of the result of a call, on the fields of the arguments and of the result.

pub mod agents;
pub mod apps;
pub mod hooks;
pub mod numerals;
pub mod reports;
pub mod sessions;
pub mod urls;
pub mod wordings;
