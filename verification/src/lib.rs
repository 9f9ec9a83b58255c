//! A terminal mail dashboard's credential lifecycle and synchronization core.

pub mod input;
pub mod mail;
pub mod outlook;
pub mod parse;
pub mod render;
pub mod setup;
pub mod state;
pub mod storage;
pub mod text;
pub mod transport;
pub mod web;
