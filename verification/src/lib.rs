//! Feed synchronisation for a personal RSS/Atom reader.
//!
//! The library reads feed documents of either format into one shape
//! ([`syndication`]), decides which entries of a fetched feed are new and
//! makes them ready for the store ([`producer`]), and sequences a polling
//! cycle over all subscribed feeds ([`sync`]). It reads no network and no
//! store itself: the caller fetches, stores and waits, and hands the library
//! what came of it.
//!
//! [`store`] and [`world`] hold no code that runs. They state what the
//! library relies on in its surroundings and prove what follows, above all
//! that a second cycle over unchanged feeds takes nothing in.

pub mod error;
pub mod models;
pub mod producer;
pub mod store;
pub mod sync;
pub mod syndication;
pub mod text;
pub mod time;
pub mod worker;
pub mod world;
