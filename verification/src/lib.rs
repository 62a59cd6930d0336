//! Core library for a desktop companion that talks to the locally running
//! game client over its private RPC API and merges live session state with
//! scraped build statistics, cached on disk with time-based expiry.

pub mod app_config;
pub mod app_status;
pub mod custom_provider;
pub mod ddragon;
pub mod jsonval;
pub mod lcu_driver;
pub mod source_provider;
pub mod text;
pub mod ws;
