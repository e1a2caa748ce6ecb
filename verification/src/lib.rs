//! A small media gallery: directory listings and cached thumbnails.

pub mod api;
pub mod listing;
pub mod paths;
pub mod resolver;
pub mod text;
pub mod thumb;
