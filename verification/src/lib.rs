//! Control client for Sonoff devices in DIY mode, which take JSON commands
//! over HTTP on the local network.
//!
//! The library does no I/O. An operation is a conversation of one or two
//! exchanges: it is called with the replies received so far, and answers
//! with the next request to send or with its result (see [`device::Step`]).
//! Sending the requests is the caller's part.
//!
//! Contracts speak of JSON documents through [`json::JsonModel`]; the values
//! themselves are `serde_json::Value`s, reached through [`value`].

pub mod error;
pub mod json;
pub mod value;
pub mod codec;
pub mod device;
pub mod device_common;
pub mod switchable;
pub mod dimmable;
pub mod switch;
pub mod dimmer;
pub mod bulb;
pub mod mini_r3;
pub mod power_meter;
pub mod command;
