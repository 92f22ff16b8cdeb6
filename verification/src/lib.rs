pub mod analyzer;
pub mod api;
pub mod capture;
pub mod cli;
pub mod db;
pub mod machine;
pub mod models;
pub mod normalizer;
pub mod status;
pub mod text;
pub mod text_io;
pub mod transcription;
pub mod tui;
pub mod ui;
pub mod waybar;
