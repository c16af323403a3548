//! A small issue tracker: epics that own stories, kept in one persisted snapshot.
//!
//! The repository in [`db`] keeps epics and stories consistent under whole-snapshot
//! read/modify/write; the navigator in [`navigator`] is a page-stack state machine
//! that turns user actions into navigation or repository changes.

pub mod models;
pub mod db;
pub mod navigator;
pub mod ui;
