//! Resolution of named cloud-access profiles from layered configuration
//! sources, and the lifecycle of the temporary credentials they hold.

pub mod error;
pub mod export;
pub mod text;
pub mod clock;
pub mod profile;
pub mod table;
pub mod collection;
pub mod setting;
pub mod cache;
pub mod client;
pub mod env;
pub mod file;
pub mod opts;
pub mod listing;
