//! Disc indexing core: discovering disc-image candidates, reading the
//! configuration entry of each image, resolving the canonical title id from
//! its boot path, and converting typed catalog fields to and from their
//! canonical storage text.

pub mod crawler;
pub mod disc;
pub mod system_cnf;
pub mod text;
pub mod title_id;

pub use disc::Disc;
