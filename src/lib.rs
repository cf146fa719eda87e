//! Mirrors one watched file into a backup directory.
//!
//! The library holds the decisions of the program: which path the backup is
//! written to, how raw change notifications are coalesced, what the startup
//! sequence does on each outcome, and how the watch loop reacts to each event.
//! The program around it performs the file operations and reports back.
pub mod debounce;
pub mod logfile;
pub mod paths;
pub mod startup;
pub mod status;
pub mod store;
pub mod target;
pub mod watch;
