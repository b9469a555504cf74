//! Scripture references: book names, chapter and verse locations, an index
//! of a verse corpus, and an approximate text matcher.

pub mod book;
pub mod codec;
pub mod corpus;
pub mod error;
pub mod location;
pub mod matcher;
pub mod reference;
pub mod round_trip;
pub mod strings;
pub mod translation;
