//! The decisions of a terminal git client: what each key press, network result
//! and finished git command does to the application state, when a watched git
//! directory asks for a reload, and how a repository is opened.
//!
//! Nothing here touches the disk, the network or a thread. Each handler updates
//! [`app::App`] and queues [`effect::Effect`]s for the host program to carry out.

pub mod app;
pub mod effect;
pub mod input;
pub mod laws;
pub mod message;
pub mod names;
pub mod oid;
pub mod open;
pub mod operation;
pub mod panes;
pub mod paths;
pub mod repository;
pub mod request;
pub mod scan;
pub mod screen;
pub mod text;
pub mod watcher;
