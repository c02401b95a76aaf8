//! Verified core of the TOPPERS/ASP "sample1" program: the decisions that the
//! sample's tasks and handlers take, kept apart from the kernel calls that
//! carry them out.

pub mod ercd;
pub mod kernel;
pub mod syslog;
pub mod mailbox;
pub mod task;
pub mod console;
pub mod handlers;
pub mod timing;
pub mod laws;
