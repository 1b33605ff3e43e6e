//! Verified core of a social-network bot that replies to posts mentioning it
//! with the position of a number in the digits of pi.
//!
//! The library covers the logic of the bot: extracting a numeric query from
//! free text, filtering commit events for mentions of the watched identity,
//! resolving the thread root for a reply, composing the reply body, and the
//! pipeline state machine that drives one streaming run. All network and file
//! I/O stays outside; the surrounding program hands the library plain values
//! (event records, search responses) and receives plain values back.

pub mod compose;
pub mod extract;
pub mod mention;
pub mod model;
pub mod pipeline;
pub mod text;
pub mod thread;
