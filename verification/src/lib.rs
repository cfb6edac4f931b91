//! Verified core of a chat bot that reports COVID-19 case counts.
//!
//! The library holds everything the bot decides or computes: recognising the
//! command in an inbound message, resolving the country token, building the
//! statistics query URL for yesterday's date, extracting the case count from
//! the response body, and rendering the localized reply text. The surrounding
//! process (the messaging-platform stream, the HTTP client, the environment)
//! lives outside the library and only hands plain values in and out.

pub mod command;
pub mod countries;
pub mod dates;
pub mod numfmt;
pub mod pipeline;
pub mod stats;
