//! Core logic of a browser and launcher for Switch LAN Play relay servers:
//! relay list selection, server status bookkeeping, ordering by ping,
//! relay detection, launch command lines and configuration paths.

pub mod text;
pub mod json;
pub mod platform;
pub mod models;
pub mod probe;
pub mod server;
pub mod view;
pub mod ordering;
pub mod launch;
pub mod relay_list;
pub mod browser;
pub mod web;
pub mod laws;
