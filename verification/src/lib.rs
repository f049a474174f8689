//! Construction of correctly-ordered command-line invocations for the
//! `steamcmd` game-server management tool, together with a small declarative
//! configuration model naming servers and the workshop modifications each
//! should install.

pub mod config;
pub mod decimal;
pub mod steamcmd;
