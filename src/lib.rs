//! A remote state backend for infrastructure tools: an opaque state blob per
//! named workspace, and an exclusive, token-based lock per workspace that
//! guards every change of that blob.

pub mod cli;
pub mod error;
pub mod lock;
pub mod laws;
pub mod state;
