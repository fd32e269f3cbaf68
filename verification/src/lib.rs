use vstd::prelude::*;

pub mod text;
pub mod models;
pub mod user;
pub mod auth;
pub mod config;
pub mod clients;
pub mod environment;
pub mod navidrome_addon;
pub mod lidarr_addon;
pub mod storage;
pub mod database;
pub mod api;
pub mod search;
pub mod handlers;
pub mod entities;

verus! {

} // verus!
