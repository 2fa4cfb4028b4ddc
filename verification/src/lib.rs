//! Decisions behind the command line tools and the applet prelude of a platform.
//!
//! Nothing here touches a device, a process or a file. Each function says, for the
//! values that its caller read, what has to be done next.
pub mod applet;
pub mod command;
pub mod connect;
pub mod hex;
pub mod opt_level;
pub mod platform;
pub mod rpc;
pub mod steps;
pub mod text;
