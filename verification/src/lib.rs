//! A Telegram channel crawler's core: username rules, text handling,
//! conversion of Telegram data into the crawler's records, and the
//! decisions that drive crawling and downloading.

pub mod text;
pub mod utils;
pub mod types;
pub mod errors;
pub mod tl_model;
pub mod converter;
pub mod tg;
pub mod downloader;
pub mod db;
pub mod crawl;
