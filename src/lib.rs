//! Identity queries for a program running inside a web page: who the user
//! is, what the browser is called, and which operating system sits beneath
//! it, all read from the strings the hosting page hands over; and the
//! machine statistics a kernel reports.

pub mod agent;
pub mod host;
pub mod sysinfo;
pub mod text;

pub use agent::{
    desktop_env, devicename, distro, hostname, platform, realname, username, DesktopEnv, Platform,
};
pub use host::{HostCache, OnceText};
pub use sysinfo::{SysInfo, SysInfoError};
