//! Core of a terminal tool that surveys the services of a host's service
//! manager: trusted command resolution, journal queries, row and selection
//! bookkeeping, and the state machines that the interactive loop drives.

pub mod text;
pub mod types;
pub mod rows;
pub mod cli;
pub mod systemd;
pub mod journal;
pub mod status;
pub mod batch;
pub mod resolve;
pub mod command;
pub mod refresh;
pub mod controller;
pub mod debug;
pub mod input;
