//! Client-side core of a disposable-credential provisioning front end.
//!
//! The library holds the parts with real ordering and data logic: delimited
//! credential-record parsing, the single-use verification token slot, the
//! interpretation of provisioning responses, the session controller state
//! machine, and the fixed-point display interpolator. All network and
//! browser-widget I/O stays outside, handing the library plain values.

pub mod controller;
pub mod counter;
pub mod record;
pub mod text;
pub mod token;
pub mod workflow;
