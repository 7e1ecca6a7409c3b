//! Models of the Foundation object surface: plain strings, attributed
//! strings, dictionaries, ranges, and the error and exception values that
//! the failure channels carry.

pub mod attributed_string;
pub mod dictionary;
pub mod error;
pub mod obj;
pub mod range;
pub mod string;
pub mod url;
