//! Verified core of a flashcard study application.
//!
//! The library holds the data model (study sets, folders, flashcards) and the
//! page state machines that translate user-interface messages into database
//! commands. Widget construction and the database connection itself live
//! outside the library; everything here is verified.

pub mod app;
pub mod flashcards;
pub mod models;
pub mod studysets;
pub mod utils;
