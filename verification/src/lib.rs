//! Session management and authentication core for a small blog server.
//!
//! The library models users, server-side sessions and posts as in-memory
//! stores with verified contracts, and builds the authentication service
//! (registration, login, logout, identity resolution), the session cookie
//! protocol and the admin authorization guard on top of them.

pub mod cookie;
pub mod errors;
pub mod hasher;
pub mod models;
pub mod posts;
pub mod service;
pub mod sessions;
pub mod strutil;
pub mod theme;
pub mod token;
pub mod users;
