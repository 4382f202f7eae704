//! Catalogue entities, source connectors and the download scheduler of a
//! manga reader, with their behaviour stated as contracts.

pub mod bridge;
pub mod cache;
pub mod config;
pub mod connector;
pub mod delegate;
pub mod dirs;
pub mod download;
pub mod entity;
pub mod lookup;
pub mod nav;
pub mod state;
pub mod text;
