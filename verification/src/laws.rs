//! What holds of the library as a whole: properties that span several operations.

pub mod caching;
pub mod conversation;
pub mod environment;
pub mod keys;
pub mod paths;
pub mod reading;
pub mod serving;
pub mod text;
pub mod views;
