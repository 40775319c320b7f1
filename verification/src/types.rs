//! Data exchanged with the user interface and written to reports.

use vstd::prelude::*;
use std::sync::Arc;
use std::sync::atomic::AtomicBool;

verus! {

/// Set while a running download batch should stop.
pub struct CancelState(pub Arc<AtomicBool>);

/// One video of a playlist.
#[derive(Clone, Debug)]
pub struct VideoInfo {
    pub id: String,
    pub title: String,
    pub channel: String,
    /// Length in seconds, when known.
    pub duration: Option<u64>,
    pub thumbnail: String,
}

/// A fetched playlist: its title and its available videos, in order.
#[derive(Clone, Debug)]
pub struct PlaylistResult {
    pub title: String,
    pub videos: Vec<VideoInfo>,
}

/// What the user asked to download, and how.
#[derive(Clone, Debug)]
pub struct DownloadSettings {
    pub playlist_url: String,
    pub cookie_file: String,
    pub output_dir: String,
    pub quality: String,
    pub format: String,
    pub proxy: Option<String>,
    pub include_comments: bool,
    pub auto_tag: bool,
    pub selected_indices: Vec<usize>,
    pub single_video: bool,
    pub inject_metadata: bool,
    pub update_mode: bool,
    pub export_comments: Option<String>,
    pub download_subs: bool,
    pub sub_langs: Option<String>,
    pub auto_subs: bool,
    pub write_info_json: bool,
    pub flat_output: bool,
    pub no_watermark: bool,
    pub max_concurrent: usize,
    pub is_tiktok: bool,
}

/// The comments of one video, as exported.
#[derive(Clone, Debug)]
pub struct CommentExport {
    pub video: String,
    pub video_id: String,
    pub comments: Vec<CommentEntry>,
}

/// One exported comment.
#[derive(Clone, Debug)]
pub struct CommentEntry {
    pub author: String,
    pub text: String,
    pub date: String,
    pub likes: u64,
    pub is_creator: bool,
    pub parent: String,
}

/// A comment as the downloader's info file records it; each field is
/// `None` where the record lacks it or holds a value of another type.
#[derive(Clone, Debug)]
pub struct Comment {
    pub id: Option<String>,
    pub parent: Option<String>,
    pub author: Option<String>,
    pub author_id: Option<String>,
    pub author_thumbnail: Option<String>,
    pub author_is_uploader: Option<bool>,
    pub text: Option<String>,
    pub like_count: Option<u64>,
    pub timestamp: Option<u64>,
}

/// One line of the downloader's JSON listing of a playlist or a video;
/// each field is `None` where the record lacks it or holds a value of
/// another type.
#[derive(Clone, Debug)]
pub struct VideoRecord {
    pub id: Option<String>,
    pub title: Option<String>,
    pub channel: Option<String>,
    pub duration: Option<u64>,
    pub thumbnail: Option<String>,
    pub playlist_title: Option<String>,
    pub playlist: Option<String>,
    pub availability: Option<String>,
    pub live_status: Option<String>,
}

} // verus!
