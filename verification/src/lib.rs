//! Verified core of a cross-platform video download front end: log keeping,
//! command building, input checks and the rules of a download session.
pub mod text;
pub mod log;
pub mod url_check;
pub mod messages;
pub mod command;
pub mod session;
pub mod window;

pub use crate::log::{append_log, update_log_smart};
pub use crate::url_check::is_valid_url;
