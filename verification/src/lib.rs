pub mod clock;
pub mod text;
pub mod json;
pub mod feed;
pub mod model;
pub mod navigation;
pub mod media_scheduler;
pub mod keymap;
pub mod media;
pub mod media_store;
pub mod app;
pub mod api;
pub mod ui;
pub mod config;
pub mod video_player;
pub mod disk_cache;
pub mod row_text;
pub mod overlay_text;
