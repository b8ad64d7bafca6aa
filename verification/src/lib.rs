pub mod json;
pub mod office;
pub mod pattern;
pub mod text;
pub mod tools;
pub mod triggers;
pub mod html;
pub mod browse;
pub mod chat;
pub mod voicevox;
pub mod config;
pub mod irodori;
pub mod voice;
