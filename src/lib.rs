//! A clipboard translator's core: language tags, backend configuration,
//! request building for each backend platform, response parsing, the
//! translation history records, and the steps of one translation.

pub mod lang;
pub mod text;
pub mod config;
pub mod error;
pub mod request;
pub mod json;
pub mod response;
pub mod clock;
pub mod history;
pub mod translation;
