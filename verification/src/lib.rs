//! Decision logic of a guard that shuts the PC down when its heartbeat service is gone.
//!
//! A service in the local network answers encrypted heartbeats as long as it has power. When it
//! falls silent for a minute, and does not answer a search either, the guard counts down for another
//! minute and then shuts the PC down, unless the user steps in or the service comes back.
//!
//! The library decides; it performs nothing. Time, sockets, windows and files are the caller's: it
//! hands in what has happened, and carries out what comes back.
//!
//! - On the wire: [`crypto`] seals and opens frames, [`protocol`] holds the messages, and [`json`]
//!   the calls into the JSON crate.
//! - In the background: [`heartbeat`] is one exchange with the service, [`discovery`] the search for
//!   services, [`monitor`] the verdict on them, and [`journal`] what is logged about it. [`history`]
//!   states what holds of the verdicts over time.
//! - On the screen: [`app`] turns events into what is to be done, [`window`] is what the main window
//!   shows, and [`countdown`] the countdown. [`app_history`] states when the countdown comes up, and
//!   [`guard`] what holds of monitor and window together, joined by queues.
//! - Around: [`tray`], [`icon`], [`win32`], [`autostart`] and [`logger`].
//! - Call by call: [`monitor_laws`], [`app_laws`], [`scan_laws`], [`wire_laws`], [`journal_laws`],
//!   [`shell_laws`] and [`text_laws`] state what each call gives, in plain numbers and texts.
pub mod app;
pub mod app_history;
pub mod app_laws;
pub mod autostart;
pub mod countdown;
pub mod crypto;
pub mod discovery;
pub mod events;
pub mod guard;
pub mod heartbeat;
pub mod history;
pub mod icon;
pub mod journal;
pub mod journal_laws;
pub mod json;
pub mod logger;
pub mod monitor;
pub mod monitor_laws;
pub mod protocol;
pub mod scan_laws;
pub mod shell_laws;
pub mod text;
pub mod text_laws;
pub mod tray;
pub mod win32;
pub mod window;
pub mod wire_laws;
