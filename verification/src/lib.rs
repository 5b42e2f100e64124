//! Verified core of a terminal front end for browsing and curating video feeds.

pub mod api;
pub mod app;
pub mod config;
pub mod feed;
pub mod history;
pub mod term;
pub mod text;
pub mod view;
