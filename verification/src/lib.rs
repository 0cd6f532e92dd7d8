//! Verified core of a screen tour guide: step memory, provider configuration,
//! key handling, the tour state machine, and the text protocol spoken with the
//! vision model.

pub mod text;
pub mod memory;
pub mod config;
pub mod keys;
pub mod events;
pub mod tour;
pub mod uitars;
pub mod prompt;
pub mod agent;
pub mod logger;
