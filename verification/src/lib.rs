//! A host-activity probe for a desktop session.
//!
//! The probe answers three questions: how long the session has been without
//! keyboard or mouse input, which title the foreground window carries, and
//! whether the session accepted a request to lock it. This library holds the
//! rules by which the raw answers of an operating system become those three
//! values; the program around it asks the operating system.
//!
//! Two backends exist. [`native`] interprets what a desktop session answered;
//! [`fallback`] stands in where no session can be asked and hands out neutral
//! values. Neither keeps any state between two calls. [`text`] decodes the
//! wide-character text of a window title, and [`error`] holds the one failure
//! that a probe reports.

pub mod error;
pub mod fallback;
pub mod native;
pub mod text;
