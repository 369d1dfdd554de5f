//! A verified core for a journal-logging binding in the style of the systemd
//! journal client API.
//!
//! The native journal service is driven through a foreign, stateful cursor
//! protocol: an opaque handle carries an implicit position, every call
//! reports an `errno`-style return code, and data arrives as raw
//! `FIELD=value` byte buffers.  Everything about that protocol that can be
//! decided without performing the foreign call itself is collected here and
//! verified:
//!
//! - [`enums`] — the outcome and option types of the binding (movement
//!   results, enumeration results, wake events, error taxonomy) and the
//!   numeric encodings of log levels and open flags;
//! - [`codes`] — the interpretation of native return codes into those
//!   outcome types;
//! - [`text`] — validation of text arguments (no embedded terminator),
//!   strict UTF-8 decoding of native buffers, and the splitting of
//!   `FIELD=value` records;
//! - [`time`] — conversions between the native microsecond clocks and
//!   second/subsecond calendar or duration parts;
//! - [`model`] — a reference state machine for the cursor and enumeration
//!   protocol, with proofs of its governing laws (a fresh handle is
//!   unpositioned, skips are truncated exactly at the boundary, enumeration
//!   is exhaustive, restartable and absorbing at its end).
//!
//! The unverified half of the binding — the `unsafe` foreign calls, the
//! copying and freeing of foreign buffers, and the handle that owns the
//! native session pointer — lives outside this library and routes every
//! decision through the functions defined here.

pub mod codes;
pub mod enums;
pub mod model;
pub mod text;
pub mod time;

pub use enums::{
    CursorCheck, CursorMovement, Enumeration, Error, Event, FileFlags, Level, NamespaceFlags,
    PathFlags, UserFlags,
};
