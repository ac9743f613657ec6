//! Caching for secrets that are read through an external command line tool.
//!
//! A daemon keeps in memory what the tool returned. Clients ask it before they run the tool, and
//! hand it what they had to fetch. A command can be run with every secret that its environment
//! refers to put in place.
//!
//! The library decides what a client and the daemon do. Sockets, processes, files and signals are
//! the caller's: it reports events and carries out the steps that it gets back.

pub mod client;
pub mod config;
pub mod daemon;
pub mod digest;
pub mod error;
pub mod laws;
pub mod path;
pub mod protocol;
pub mod run;
pub mod text;
