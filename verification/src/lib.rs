//! Core rules of the WorkPlan desktop shell.
//!
//! - [`version`]: how release versions are read and ordered.
//! - [`autostart`]: where and how the application is registered to start at login.
//! - [`protocol`]: the steps of enabling, disabling and looking up that registration.
//! - [`store_model`]: what those steps achieve in a model of the system.
//! - [`close_behavior`]: the switch that decides what closing the main window does.
//! - [`update`]: how the answer of the releases service is judged.
//! - [`text`]: helpers on text.

pub mod autostart;
pub mod close_behavior;
pub mod protocol;
pub mod store_model;
pub mod text;
pub mod update;
pub mod version;
