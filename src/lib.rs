//! Desktop sensing core for an always-on-top overlay: window filtering,
//! screen and dock geometry with fallbacks, and the decisions of the
//! cursor hit-test poller. Every function here works on plain values that
//! a platform adapter has already read from the operating system.

pub mod geometry;
pub mod enumerator;
pub mod hittest;
pub mod text;
pub mod storage;
pub mod config;
pub mod browser;
pub mod tray;
