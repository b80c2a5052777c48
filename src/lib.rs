//! A small product-catalog HTTP service: the decisions behind each endpoint,
//! the route table, and the startup configuration, each with a contract.
//! Sockets, the database pool and JSON live in the application around it.

pub mod auth;
pub mod config;
pub mod catalog;
pub mod stats;
pub mod routes;
