//! Configuration, job-menu and connection-settings logic of the dictionary
//! link batch tool, verified with Verus.

pub mod cli;
pub mod config;
pub mod controller;
pub mod dtos;
pub mod repository;
pub mod text;
