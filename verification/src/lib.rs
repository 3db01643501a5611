//! Verified core of a Japanese input method for the Windows Text Services
//! Framework: the input engine's key handling (romaji composition and the
//! mode keys), the text service's key-event bookkeeping, the edits applied
//! to a document, and the candidate window's layout and painting.

pub mod bridge;
pub mod candidate;
pub mod config;
pub mod edit;
pub mod engine;
pub mod engine_laws;
pub mod kana;
pub mod learning;
pub mod romaji;
pub mod service;
pub mod text;
