//! Verified core of an offline bilingual Bible reader.

pub mod text;
pub mod catalog;
pub mod json;
pub mod hebrew;
pub mod translation;
pub mod chapter;
pub mod search;
pub mod bible;
pub mod selection;
pub mod settings;
pub mod reader;
pub mod fonts;
pub mod book_lookup;
