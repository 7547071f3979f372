//! Memory Monitor & Auto-Cleaner: the decision logic of a memory monitoring
//! daemon that cleans memory automatically and sends Growl/GNTP notifications.
//!
//! The library decides; its caller reads the memory counters, runs the
//! cleanup stages, talks to the Growl server, and prints what it is given.

pub mod cleaner;
pub mod config;
pub mod display;
pub mod ini;
pub mod monitor;
pub mod notification;
pub mod text;

pub use config::MonitorConfig;
pub use monitor::MemoryMonitor;
