//! Core of a live-streaming desktop toolbox for Bilibili: the danmaku wire
//! protocol, login cookie handling, command rules and session bookkeeping.

pub mod client;
pub mod commands;
pub mod credentials;
pub mod danmaku;
pub mod events;
pub mod feed;
pub mod host;
pub mod images;
pub mod inbox;
pub mod json;
pub mod models;
pub mod persistence;
pub mod resources;
pub mod session;
pub mod stats;
pub mod text;
