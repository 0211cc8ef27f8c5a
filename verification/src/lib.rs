//! Core of a context-menu "Super Copy" / "Super Paste" helper: a shared,
//! ordered list of paths that successive copy commands accumulate, and the
//! relay that maps one command-line vector to a list mutation or a bulk-copy
//! request.

pub mod copy_list;
pub mod laws;
pub mod registry;
pub mod relay;
