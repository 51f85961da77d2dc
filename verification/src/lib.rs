//! Core logic of the Fido terminal client: realtime connection policy,
//! feed and thread navigation, direct-message selection, settings,
//! session-token checks and the small text utilities they rely on.

pub mod text;
pub mod dms;
pub mod post;
pub mod thread;
pub mod detail;
pub mod realtime;
pub mod repo;
pub mod numfmt;
pub mod state;
pub mod error;
pub mod emoji;
pub mod session;
pub mod config;
pub mod wrap;
pub mod communities;
pub mod feed;
pub mod chat;
pub mod live;
pub mod keys;
pub mod social;
pub mod composer;
pub mod route;
pub mod conversations;
pub mod update;
pub mod lifecycle;
pub mod storage;
pub mod debug_log;
pub mod thread_view;
pub mod api;
pub mod auth;
pub mod community;
pub mod dispatch;
pub mod ui;
