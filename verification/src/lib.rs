//! Verified core of a workspace chat service: the chat data model, the rules
//! that guard chats, messages and accounts, and the live notification path
//! that turns committed changes into per-user event streams.

pub mod access;
pub mod auth;
pub mod chat;
pub mod config;
pub mod error;
pub mod event;
pub mod file;
pub mod listener;
pub mod message;
pub mod middleware;
pub mod model;
pub mod notify;
pub mod registry;
pub mod router;
pub mod session;
pub mod text;
pub mod user;
