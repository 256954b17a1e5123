//! Configuration state machine of a hotkey-driven desktop launcher.
//!
//! The crate holds the decisions of the launcher and none of its effects:
//! every operation takes plain values and answers with the next state and the
//! commands that the surrounding program has to carry out.
//!
//! - [`config`]: the configuration value and the rules for its default index.
//! - [`store`]: the holder of the live configuration.
//! - [`shortcut`]: the binding between the hotkey and its registration.
//! - [`launch`]: what a press of the hotkey brings up, and where.
//! - [`autostart`]: keeping the autostart registration in line.
//! - [`events`]: reactions to the tray menu and to window events.
//! - [`service`]: the operations that the user interface calls.
//! - [`registrations`]: what the service's commands do to the registrations
//!   that the operating system holds.

pub mod autostart;
pub mod config;
pub mod events;
pub mod launch;
pub mod registrations;
pub mod service;
pub mod shortcut;
pub mod store;
