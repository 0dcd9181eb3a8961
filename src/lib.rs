//! Coursework submission helper: path filtering for archives, layered
//! configuration fields, project scaffolding and mail planning.

pub mod archive;
pub mod commands;
pub mod config;
pub mod date;
pub mod dispatch;
pub mod entries;
pub mod mail;
pub mod message;
pub mod path_filter;
pub mod scaffold;
pub mod text;

pub use dispatch::run;
