//! Slidegrid: the state and rules behind a slideshow shown across several
//! screen regions.
//!
//! The window, its event loop and the file system stay with the
//! application, which hands plain values in and applies what comes back.
//! What is verified here rests on the few contracts in `platform`, which
//! are believed of the standard library and of the `dirs` crate.

pub mod platform;
pub mod services;
pub mod ui;
