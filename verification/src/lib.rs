//! Client-side logic of a paste store: addressing, request planning,
//! content-type inference and download bookkeeping.

pub mod address;
pub mod command;
pub mod config;
pub mod content_type;
pub mod download;
pub mod endpoint;
pub mod error;
pub mod length;
pub mod progress;
pub mod resolver;
pub mod transfer;
