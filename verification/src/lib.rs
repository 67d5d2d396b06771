//! Self-updating supervisor for a long-running worker process.
//!
//! The library resolves the release that fits the host, plans how to install it under a
//! versioned directory and promote it to current, and arbitrates among the triggers that
//! relaunch the worker. It decides; the caller performs: the caller reads the disk, talks
//! to the release source, carries out the planned steps and owns the child process.
//!
//! - [`release`]: from the release source's answer to the package for this host.
//! - [`store`]: the current pointer, the steps of an update, and what they achieve.
//! - [`watcher`]: the background update check, tick by tick.
//! - [`supervisor`]: one worker at a time, relaunched once per round of triggers.
//! - [`host`], [`gpu`]: the host profile sent to the release source.
//! - [`probe`]: what the host is asked directly, to name the record's host.
//! - [`config`], [`logfmt`]: the launcher's command line and its log lines.
//! - [`paths`], [`text`]: paths and text, as sequences of characters.

pub mod config;
pub mod gpu;
pub mod host;
pub mod logfmt;
pub mod package;
pub mod paths;
pub mod probe;
pub mod release;
pub mod store;
pub mod supervisor;
pub mod text;
pub mod watcher;
