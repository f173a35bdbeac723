//! Organises locally cloned repositories under a work or a personal profile,
//! and holds the logic of the interactive picker that jumps into one of them.

pub mod args;
pub mod clone_target;
pub mod config;
pub mod matching;
pub mod repolist;
pub mod text;
pub mod tui;
