//! The DNS state of a resolver switcher: reading the active servers from the
//! query tool's output, classifying them against the provider table and the
//! user's custom list, building the apply tool's arguments, and the state
//! machine that ties query and apply runs to a loading / success / error status.
pub mod types;
pub mod dns;
pub mod classify;
pub mod state;
pub mod ui_components;
