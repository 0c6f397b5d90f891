//! A JSON-RPC 2.0 dispatcher for a long-lived connection, together with the
//! small user, authentication and configuration rules of the service around it.

pub mod auth;
pub mod builtin;
mod clock;
pub mod config;
pub mod connection;
pub mod error;
pub mod error_code;
pub mod health;
pub mod json;
pub mod message;
pub mod registry;
pub mod service;
pub mod text;
pub mod users;
pub mod wire;
