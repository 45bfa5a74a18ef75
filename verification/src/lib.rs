//! A facade in front of two upstream HTTP services: given the name of a
//! Pokémon it answers with the name and the Shakespearean rendering of the
//! Pokémon's English flavor text.
//!
//! This crate holds the decisions of that service, and none of its I/O. The
//! caller performs each upstream request that the library hands out and gives
//! the answer back as a plain value.

pub mod config;
pub mod error;
pub mod exchange;
pub mod handler;
pub mod http;
pub mod pokemon;
pub mod text;
pub mod translation;

pub use crate::error::Error;
pub use crate::handler::Handler;
pub use crate::pokemon::{PokeApi, Pokemon};
pub use crate::translation::Translator;
