//! Setting up Linux swap areas: the decisions, checks and on-disk layout behind the
//! `rsmkswap` command.

pub mod area;
pub mod cli;
pub mod device;
pub mod endian;
pub mod error;
pub mod header;
pub mod identity;
pub mod laws;
pub mod mkswap;
pub mod pagesize;
pub mod scan;
pub mod session;
pub mod swapheader;
pub mod text;
