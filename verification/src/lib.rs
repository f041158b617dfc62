//! Runtime core of an event-driven chat-platform bot.
//!
//! The crate provides a command framework in which a command's argument
//! schema is declared once, as a first-class value, and is used both to
//! derive the registration object sent to the remote platform and to parse
//! incoming raw arguments into a typed command instance, so the two can
//! never drift apart.  Around it stand the event model, the handler
//! interface with its subscription mask, and the client builder.

pub mod cli;
pub mod client;
pub mod command;
pub mod commands;
pub mod event;
pub mod event_handler;
pub mod interaction;
pub mod laws;
pub mod schema;
pub mod validate;
