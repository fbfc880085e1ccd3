//! Core of a launcher for versioned game builds: version ordering, the
//! single-flight download supervisor, launch planning and paginated fetching.

pub mod text;
pub mod version_model;
pub mod version_key;
pub mod sorting;
pub mod json;
pub mod catalog;
pub mod progress;
pub mod versions;
pub mod layout;
pub mod launcher;
pub mod download;
pub mod text_order;
pub mod home;
pub mod instances;
pub mod mods;
pub mod shell;
