//! Jellyfin library layout: the configuration of the mount targets, the
//! episode patterns, the names given to series, seasons and episodes, and
//! the series records kept in the database.

pub mod anime;
pub mod command;
pub mod config;
pub mod metadata;
pub mod organize;
pub mod pattern;
pub mod series;
pub mod series_metadata;
