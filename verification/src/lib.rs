pub mod cli;
pub mod commands;
pub mod config;
pub mod dashboard;
pub mod files;
pub mod installer;
pub mod overlays;
pub mod sys;
pub mod systemd;
pub mod tasks;
pub mod text;
