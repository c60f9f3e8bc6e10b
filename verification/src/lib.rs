//! Diary publishing: a submitted entry becomes a dated file in a working copy,
//! and the working copy is synchronised with its remote by a fixed sequence of
//! version-control steps, guarded so that one sequence runs at a time.

pub mod command;
pub mod diary;
pub mod handler;
pub mod middleware;
pub mod page;
pub mod sync;
