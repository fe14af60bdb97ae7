//! A debug adapter for Clarity programs.
//!
//! A client, such as an editor, talks to the adapter in the Debug Adapter Protocol; the engine that
//! runs the program asks it before each expression. The adapter answers the client's requests, tells
//! it where execution is held, and keeps the frames, scopes and variables that the client may ask
//! for. It neither reads nor writes: whoever runs it hands it what has come in, and performs the
//! actions that it collects.
//!
//! The adapter is [`debugger::DAPDebugger`]. What each of its operations does is stated in [`model`],
//! what holds of them together in [`laws`], and what holds over the life of an adapter in
//! [`history`]. What the client and the engine see of each operation is stated in [`answers`], what is
//! saved for the client in [`frames`], when an operation can be asked for in [`conditions`], and that
//! views leave nothing out in [`faithful`].

pub mod answers;
pub mod clarity;
pub mod conditions;
pub mod debugger;
pub mod engine;
pub mod faithful;
pub mod frames;
pub mod history;
pub mod json;
pub mod laws;
mod lemmas;
pub mod messages;
pub mod model;
mod scopes;
mod text;
pub mod types;
