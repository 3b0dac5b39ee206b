//! The rules of a desktop client that downloads videos from a streaming
//! platform: how the two streams of a video are requested, where they are
//! kept, how they are combined into one playable file, and what is reported
//! when a step fails.
//!
//! The library decides; it reads no file and opens no connection. Its callers
//! perform the actions it names and hand back what happened.

pub mod auth;
pub mod download;
pub mod download_model;
pub mod export;
pub mod fetch;
pub mod ffmpeg;
pub mod locator;
pub mod paths;
pub mod storage;
pub mod text;
pub mod tool;
pub mod tool_model;
pub mod types;
pub mod video;

use vstd::prelude::*;

verus! {

/// The words that greet a user by name.
pub open spec fn greeting_of(name: Seq<char>) -> Seq<char> {
    "Hello, "@ + name + "! You've been greeted from Rust!"@
}

/// Greets a user by name.
pub fn greet(name: &str) -> (greeting: String)
    ensures
        greeting@ == greeting_of(name@),
{
    text::join3("Hello, ", name, "! You've been greeted from Rust!")
}

} // verus!
