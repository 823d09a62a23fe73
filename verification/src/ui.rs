//! What the shell shows, derived from a snapshot.
pub mod amount;
pub mod card;
pub mod columns;
pub mod library;
pub mod listing;
pub mod pages;
pub mod rows;
pub mod settings;
pub mod showing;
pub mod status;
pub mod suggestions;
