//! What holds of the library as a whole, over any number of calls.

pub mod boot;
pub mod calls;
pub mod catalog;
pub mod config;
pub mod desktop;
pub mod payload;
pub mod player;
pub mod record;
pub mod text;
