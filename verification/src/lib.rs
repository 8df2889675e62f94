//! Core logic of `lcx`, a LeetCode client for the terminal: text rendering of
//! judge verdicts and problem statements, ANSI handling, key-hint parsing and
//! the interactive home-screen state machine.

pub mod ansi;
pub mod commands;
pub mod graphql;
pub mod help;
pub mod home;
pub mod markup;
pub mod models;
pub mod render;
pub mod text;
