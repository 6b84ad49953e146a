//! The logic of a headless reverse-engineering daemon: its command line, its router and workers, its
//! pool of worker processes, and the tools that it offers.

// Texts, numbers, bytes and values.
pub mod text;
pub mod numbers;
pub mod bytes;
pub mod calendar;
pub mod json;
pub mod json_text;
pub mod names;
pub mod paths;

// The command line and the daemon.
pub mod protocol;
pub mod framing;
pub mod daemon;
pub mod cli;
pub mod spill;
pub mod targets;
pub mod router;
pub mod manager;
pub mod dispatch;
pub mod output;
pub mod wire;

// The worker that holds a database.
pub mod errors;
pub mod database;
pub mod opening;
pub mod worker_loop;

// The pool of workers and its sessions.
pub mod pool;
pub mod sessions;
pub mod calls;
pub mod arguments;
pub mod handlers;
pub mod pooled;

// The tools.
pub mod values;
pub mod tools;
pub mod requests;
pub mod scripts;
pub mod schema;
pub mod catalog;
pub mod server;
pub mod operations;
pub mod tasks;
pub mod dsc_task;
