//! Keeping subscription files and two proxy core executables up to date.
//!
//! The library decides; its caller does the input and output. For each
//! managed executable it says which release to take and which of its
//! assets, takes the executable out of the downloaded archive, and leads
//! the installation at every configured path, step by step. What it
//! promises is stated in the contracts of its functions and proved.

pub mod archive;
pub mod cli;
pub mod download;
pub mod install;
pub mod interactive;
pub mod platform;
pub mod release;
pub mod staging;
pub mod subscription;
pub mod text;
pub mod types;
pub mod update;
pub mod updater;
