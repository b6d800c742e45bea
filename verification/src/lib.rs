//! Supervision of one local dashboard worker and of the upgrades of the tool
//! it wraps.
//!
//! The library decides; it does not act. Whatever touches the operating
//! system, the network, the clock or the screen is done by a driver, which
//! tells the library what happened and is told what to do next. So every
//! decision here is a function of plain values, and every one of them is
//! verified against a statement of what it decides.
//!
//! - [`daemon`]: the supervisor of the worker, its life cycle and how the
//!   worker is launched.
//! - [`health`]: the health monitor that runs beside a worker, and the wait
//!   for a fresh dashboard to answer.
//! - [`version`]: how dotted versions are read and ordered.
//! - [`update`]: the checks for a newer version, for the user and in the
//!   background.
//! - [`install`]: one attempt to update: stop, install, start again.
//! - [`tray`]: the tray menu and what a click asks for.
//! - [`platform`]: where the interpreter and its environment are found.
//! - [`settings`]: the settings record.
//! - [`notice`]: what the user is shown.
//! - [`text`]: helpers on text.

pub mod daemon;
pub mod health;
pub mod install;
pub mod notice;
pub mod platform;
pub mod settings;
pub mod text;
pub mod tray;
pub mod update;
pub mod version;
