//! The records that the store keeps, and the requests that change or read
//! them.

pub mod database;
pub mod feeds;
pub mod items;
pub mod settings;
