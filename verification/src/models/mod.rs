//! The vault's data model.

pub mod config;
pub mod account;
pub mod media;
pub mod tasks;
pub mod tags;
pub mod albums;
pub mod misc;
pub mod home;
