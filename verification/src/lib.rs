//! A desktop-notification command for a shell pipeline.
//!
//! The library models one command invocation as a [`call::CallRecord`],
//! builds a [`request::NotificationRequest`] from the recognized flags,
//! and maps the submission outcome reported by the OS notification
//! subsystem to the command's result: the pipeline input passed through
//! unchanged on success, a labeled error on failure.

pub mod call;
pub mod command;
pub mod dispatch;
pub mod request;
