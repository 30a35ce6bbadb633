//! Core of the GitHub integration of an issue tracker: linking GitHub
//! activity to work items, status synchronisation with an anti-echo lock,
//! webhook authentication and the retry rules of the event and job queues.

pub mod auth;
pub mod jobs;
pub mod linker;
pub mod links;
pub mod models;
pub mod notify;
pub mod processor;
pub mod receiver;
pub mod scan;
pub mod signature;
pub mod status;
pub mod text;
pub mod token;
pub mod triage;
