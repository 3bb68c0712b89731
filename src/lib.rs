//! A host-side sandbox that runs an untrusted Rhai script once per frame and
//! collects the effects it asks for as an ordered list of commands.
pub mod command;
mod host;
pub mod sandbox;
