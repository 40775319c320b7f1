//! Verified core of a playlist and comment downloader: naming rules for
//! files and folders, URL handling, command-line construction for the
//! downloader tool, parsing of its JSON listings, and the HTML and CSV
//! reports built from downloaded comments.

pub mod text;
pub mod patterns;
pub mod utils;
pub mod files;
pub mod types;
pub mod templates;
pub mod escape;
pub mod html;
pub mod export;
pub mod args;
pub mod playlist;
pub mod download;
pub mod failure;
pub mod search_path;
pub mod metadata;
pub mod install;
pub mod batch;
