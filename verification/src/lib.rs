//! Decision logic of a multi-tenant TCP forwarding gateway.

pub mod activetracker;
pub mod adminserver;
pub mod backend;
pub mod config;
pub mod controller;
pub mod errors;
pub mod healthcheck;
pub mod idletracker;
pub mod listener_context;
pub mod listener_stats;
pub mod manager;
pub mod resolve;
pub mod resolver;
pub mod runner;
pub mod statistics;
pub mod strmap;
pub mod text;
pub mod tlsheader;
