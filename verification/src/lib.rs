//! The bridge between a poll-driven redraw loop and the asynchronous
//! operations of a budget database, with the data-access rules built on it.

pub mod collect;
pub mod dynamics;
pub mod page;
pub mod request;
pub mod scheme;
pub mod slot;
pub mod statement;
pub mod table;
pub mod text;
