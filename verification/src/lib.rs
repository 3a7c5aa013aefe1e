//! Verified core of the nenechi media-library tools: the rules that decide
//! how wallpapers, series, movies and anime downloads are named, validated
//! and organised. Input and output live in the companion application.

pub mod anime;
pub mod client;
pub mod commands;
pub mod config;
pub mod fs;
pub mod image;
pub mod jdownloader;
pub mod jellyfin;
pub mod matching;
pub mod media;
pub mod models;
pub mod myanimelist;
pub mod osaka;
pub mod pixiv;
pub mod text;
