//! A wizard that builds a character over several stages of a chat
//! conversation, and the small commands around it.
//!
//! A user invokes a command and is led through prompts: controls under a
//! message, then a form, then controls again, until every field of the
//! character has a value and the character goes to storage. Any number of
//! users build at the same time, each at most one character; a build can be
//! cancelled at every stage.
//!
//! The crate is the part that decides. It never talks to the chat platform
//! or to storage: a step takes the store of builds and one event, changes
//! the store, and answers with what is to be shown, asked or stored. The
//! program around it carries that out and comes back with the next event.
//!
//! - [`catalog`]: the fields and the prompt of each stage.
//! - [`session`]: draft records and the store that holds one per user.
//! - [`custom_id`]: the identifiers that controls and forms carry.
//! - [`create`]: the steps of the wizard, and what holds of them.
//! - [`characters`]: the finished character and its validation.
//! - [`character`], [`profile`]: the two commands.
//! - [`event_handler`]: the dispatch of events to the commands.
//! - [`startup`], [`config`]: the command line and the configuration.
//! - [`colour_codes`], [`logging`], [`ui`], [`text`], [`sql_scripts`]: what
//!   the others are written with.

pub mod catalog;
pub mod character;
pub mod characters;
pub mod colour_codes;
pub mod config;
pub mod create;
pub mod custom_id;
pub mod event_handler;
pub mod logging;
pub mod profile;
pub mod session;
pub mod sql_scripts;
pub mod startup;
pub mod text;
pub mod ui;
