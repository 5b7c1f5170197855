//! Resolution of the language-server binary for the Odoo editor extension.
//!
//! `platform` maps the host's operating system and CPU architecture to the
//! tag that names a release asset. `model` states, over plain sequences, how
//! a resolution proceeds from event to event; `resolver` is the executable
//! state machine that follows it, and `laws` proves what every resolution
//! guarantees.
pub mod laws;
pub mod model;
pub mod platform;
pub mod resolver;
