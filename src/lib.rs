//! Decision logic of a message-bus watcher that tells a status bar to refresh
//! when a device appears or disappears.

pub mod notify;
pub mod route;
pub mod text;
pub mod watch;
