//! A PIV-style (Personal Identity Verification) smart-card command engine.
//!
//! The crate implements the protocol core of a card applet: a command
//! dispatcher, parameter and payload validation, tag-length-value parsing,
//! resolution of data-object references, and the chunked-response buffer
//! that pages a long reply across repeated continue commands.  Transport
//! framing, device crypto and rendering are collaborators behind the
//! library's boundary: callers hand in plain values and perform the few
//! outside effects the engine asks for.

pub mod auth;
pub mod bitmaps;
pub mod comm;
pub mod data_object;
pub mod data_response;
pub mod dispatch;
pub mod error;
pub mod layout;
pub mod logging;
pub mod status;
pub mod tlv;
pub mod utils;
