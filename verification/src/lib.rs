//! A bridge that lets a relational database call sandboxed plugins as if they
//! were native functions.
//!
//! Registration reads a plugin's self-declared calling contract and turns it
//! into a typed function definition; invocation packages the caller's
//! arguments as a JSON object, hands them to the plugin and unwraps the named
//! field of its answer. Everything here is pure: loading and running a plugin
//! and talking to the database are left to the host, which is driven by the
//! step functions of [`define`] and [`plugin`], and by [`invocation`].

pub mod contract;
pub mod define;
pub mod invocation;
pub mod json;
pub mod plugin;
pub mod resolver;
pub mod sandbox;
pub mod synthesizer;
pub mod text;
