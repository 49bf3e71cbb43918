//! Verified core of a service that records how long each user spends on each
//! programming language.

pub mod calendar;
pub mod resources;
pub mod stats;
pub mod validation;
pub mod auth;
pub mod ping;
pub mod render;
pub mod text;
pub mod commands;
pub mod keygen;
pub mod logger;
pub mod seeders;
pub mod report;
pub mod db;
