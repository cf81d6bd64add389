//! Verified core of a rootless local development environment manager:
//! container command planning, service and web catalogues, system probing
//! and project bookkeeping.
pub mod paths;
pub mod projects;
pub mod services;
pub mod text;
pub mod web;
pub mod commands;
pub mod database;
pub mod engine;
pub mod system;
