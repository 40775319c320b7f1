use yt_playlist_downloader::batch::{
    batch_source, tiktok_username, comments_log_line, exists_log_line, fetch_failed_log_line, queued_log_line,
    started_log_line, video_list_batch, BatchSource,
};
use yt_playlist_downloader::download::{
    batch_log_line, comment_args, concurrency_limit, download_args, download_timeout_secs,
    is_selected, line_progress, multi_video_title, progress_percent, progress_status, retry_args,
    selection, split_lines, split_url_list, start_delay_secs, subtitle_args, summary_message,
    take_chars, tiktok_user_target, tiktok_user_title, video_page_url, wants_subtitles,
    DownloadRequest,
};
use yt_playlist_downloader::failure::{
    classify_failure, comment_error_hint, comment_error_line, error_log_lines, failure_hint,
    failure_label, first_attempt_step, lines_of, retry_attempt_step, retry_log_line, retry_reason,
    AttemptEnd, FailureKind, NextStep, RetryReason, COOKIE_HINT, RATE_LIMIT_HINT,
};
use yt_playlist_downloader::install::{
    default_app_data, default_python, default_ytdlp_program, full_install, helper_install,
    helper_next, impersonation_supported, install_next, pip_install_args,
    powershell_fetch_command, python_candidates, release_fetch_args, release_folder,
    release_powershell_args, release_target, reported_version, HelperStep, InstallAction,
    InstallEvent, InstallState, UNIX_FETCH_ERROR, WINDOWS_FETCH_ERROR,
};
use yt_playlist_downloader::metadata::{
    converter_error, tag_command, tagged_output_name, tagged_source_name, thumbnail_fetch_args,
};
use yt_playlist_downloader::playlist::{
    is_youtube_channel_url, playlist_fetch_args, playlist_fetch_url, playlist_from_records, single_video_args,
    tiktok_video_args, video_from_single, video_from_tiktok,
};
use yt_playlist_downloader::search_path::{
    join_parts, merge_dir_lists, search_path, unix_tool_dirs, windows_tool_dirs,
};
use yt_playlist_downloader::types::{VideoInfo, VideoRecord};

const API: &str = "tiktok:api_hostname=api16-normal-c-useast1a.tiktokv.com";

fn strings(items: &[&str]) -> Vec<String> {
    items.iter().map(|s| s.to_string()).collect()
}

fn with_extra(items: &[&str]) -> Vec<String> {
    let mut v = strings(&["--js-runtimes", "node", "--remote-components", "ejs:github"]);
    v.extend(strings(items));
    v
}

fn record(id: &str, title: Option<&str>) -> VideoRecord {
    VideoRecord {
        id: Some(id.to_string()),
        title: title.map(|t| t.to_string()),
        channel: Some("Chan".to_string()),
        duration: Some(61),
        thumbnail: None,
        playlist_title: None,
        playlist: None,
        availability: None,
        live_status: None,
    }
}

fn video(id: &str, title: &str) -> VideoInfo {
    VideoInfo {
        id: id.to_string(),
        title: title.to_string(),
        channel: String::new(),
        duration: None,
        thumbnail: String::new(),
    }
}

#[test]
fn fetch_url_for_playlists() {
    assert_eq!(
        playlist_fetch_url("https://www.youtube.com/watch?v=a&list=PL1"),
        "https://www.youtube.com/playlist?list=PL1"
    );
    assert_eq!(
        playlist_fetch_url("PLbare"),
        "https://www.youtube.com/playlist?list=PLbare"
    );
    assert_eq!(
        playlist_fetch_url("https://www.tiktok.com/@bob"),
        "https://www.tiktok.com/@bob"
    );
    assert_eq!(
        playlist_fetch_url("https://www.youtube.com/@chan?list=X"),
        "https://www.youtube.com/@chan?list=X"
    );
    assert_eq!(playlist_fetch_url("no id here"), "no id here");
}

#[test]
fn channel_addresses() {
    assert!(is_youtube_channel_url("https://www.youtube.com/@chan"));
    assert!(is_youtube_channel_url("https://youtube.com/channel/UC1"));
    assert!(is_youtube_channel_url("https://www.youtube.com/c/Name"));
    assert!(is_youtube_channel_url("https://www.youtube.com/user/old"));
    assert!(!is_youtube_channel_url("https://www.youtube.com/playlist?list=PL1"));
    assert!(!is_youtube_channel_url("https://www.tiktok.com/@bob"));
}

#[test]
fn playlist_listing_arguments() {
    assert_eq!(
        playlist_fetch_args("", false, true, "T", &None),
        with_extra(&["--dump-json", "--flat-playlist", "T"])
    );
    assert_eq!(
        playlist_fetch_args("c.txt", true, true, "T", &Some("p".to_string())),
        with_extra(&[
            "--cookies", "c.txt", "--dump-json", "--impersonate", "chrome", "--extractor-args",
            API, "T", "--proxy", "p"
        ])
    );
    assert_eq!(
        playlist_fetch_args("", true, false, "T", &None),
        with_extra(&["--dump-json", "--extractor-args", API, "T"])
    );
}

#[test]
fn playlist_listing_filters_and_keeps_order() {
    let mut first = record("a", Some("First"));
    first.playlist = Some("My List".to_string());
    let mut private = record("b", Some("Hidden"));
    private.availability = Some("private".to_string());
    let mut upcoming = record("c", Some("Soon"));
    upcoming.live_status = Some("is_upcoming".to_string());
    let deleted = record("d", Some("[Deleted video]"));
    let untitled = record("e", None);
    let mut with_thumb = record("f", Some("Second"));
    with_thumb.thumbnail = Some("http://t/f.jpg".to_string());
    let records = vec![
        Some(first),
        None,
        Some(private),
        Some(upcoming),
        Some(deleted),
        Some(untitled),
        Some(with_thumb),
    ];
    let r = playlist_from_records(&records, false);
    assert_eq!(r.title, "My List");
    assert_eq!(r.videos.len(), 2);
    assert_eq!(r.videos[0].id, "a");
    assert_eq!(r.videos[0].title, "First");
    assert_eq!(r.videos[0].channel, "Chan");
    assert_eq!(r.videos[0].duration, Some(61));
    assert_eq!(r.videos[0].thumbnail, "https://i.ytimg.com/vi/a/hqdefault.jpg");
    assert_eq!(r.videos[1].id, "f");
    assert_eq!(r.videos[1].thumbnail, "http://t/f.jpg");
    let t = playlist_from_records(&records, true);
    assert_eq!(t.videos[0].thumbnail, "");
}

#[test]
fn playlist_title_sources() {
    let mut a = record("a", Some("A"));
    a.playlist_title = Some("PT".to_string());
    a.playlist = Some("P".to_string());
    assert_eq!(playlist_from_records(&vec![Some(a)], false).title, "PT");
    assert_eq!(playlist_from_records(&vec![], false).title, "YouTube Playlist");
    assert_eq!(playlist_from_records(&vec![None, Some(record("x", Some("X")))], false).title, "YouTube Playlist");
    assert_eq!(playlist_from_records(&vec![Some(record("x", Some("X")))], false).title, "YouTube Playlist");
}

#[test]
fn single_video_arguments_and_record() {
    assert_eq!(
        single_video_args("c", "U", &Some("P".to_string())),
        with_extra(&["--cookies", "c", "--dump-single-json", "--no-playlist", "U", "--proxy", "P"])
    );
    let v = video_from_single(&record("id1", None));
    assert_eq!(v.title, "Unknown");
    assert_eq!(v.thumbnail, "https://i.ytimg.com/vi/id1/hqdefault.jpg");
    let v = video_from_single(&record("id1", Some("")));
    assert_eq!(v.title, "");
}

#[test]
fn tiktok_video_arguments_and_record() {
    assert_eq!(
        tiktok_video_args("U", true, true, &None),
        with_extra(&[
            "--dump-single-json", "--no-playlist", "--extractor-args", "tiktok:video_codec=h264",
            "--impersonate", "chrome", "--extractor-args", API, "U"
        ])
    );
    assert_eq!(
        tiktok_video_args("U", false, false, &Some("P".to_string())),
        with_extra(&["--dump-single-json", "--no-playlist", "--extractor-args", API, "U", "--proxy", "P"])
    );
    let v = video_from_tiktok(&record("7", None));
    assert_eq!(v.title, "TikTok");
    assert_eq!(v.thumbnail, "");
}

#[test]
fn address_lists() {
    assert_eq!(split_url_list("a, b\n c,,d "), strings(&["a", "b", "c", "d"]));
    assert_eq!(split_url_list(" , "), Vec::<String>::new());
    assert_eq!(split_lines("  u1 \n\n u2\r\n"), strings(&["u1", "u2"]));
    assert_eq!(split_lines("one"), strings(&["one"]));
    assert_eq!(split_lines("\n \n"), Vec::<String>::new());
}

#[test]
fn selections() {
    assert_eq!(selection(&vec![], 3), vec![0, 1, 2]);
    assert_eq!(selection(&vec![2, 0], 5), vec![2, 0]);
    assert_eq!(selection(&vec![], 0), Vec::<usize>::new());
    assert!(is_selected(&vec![2, 0], 0));
    assert!(!is_selected(&vec![2, 0], 1));
}

#[test]
fn tiktok_user_targets() {
    assert_eq!(
        tiktok_user_target("https://www.tiktok.com/@bob/video/123", "bob"),
        "https://www.tiktok.com/@bob/video/123"
    );
    assert_eq!(
        tiktok_user_target("https://www.tiktok.com/@bob/", "bob"),
        "https://www.tiktok.com/@bob"
    );
    assert_eq!(
        tiktok_user_target("https://www.tiktok.com/@bob/likes", "bob"),
        "https://www.tiktok.com/@bob/likes"
    );
    assert_eq!(tiktok_user_target("bob", "bob"), "https://www.tiktok.com/@bob");
    assert_eq!(tiktok_user_title("bob"), "@bob");
}

#[test]
fn batch_titles_and_lines() {
    assert_eq!(multi_video_title(3), "3 videos");
    assert_eq!(batch_log_line(true, "T", 1), "Video: T");
    assert_eq!(batch_log_line(false, "T", 12), "Playlist: T (12 videos)");
    assert_eq!(
        summary_message(2, 3, 1, 10),
        "\nDone! Videos: 2/3 | Comments: 1 (10 total)"
    );
    assert_eq!(queued_log_line(2, 10, "Song"), "[2/10] Song - queued");
    assert_eq!(started_log_line(2, 10, "Song"), "[2/10] Song");
    assert_eq!(exists_log_line(4, "Song"), "[4] Song - already exists, skipping");
    assert_eq!(fetch_failed_log_line("u", "boom"), "Failed to fetch u: boom");
    assert_eq!(comments_log_line(0), "  -> 0 comments");
}

#[test]
fn pacing() {
    assert_eq!(start_delay_secs(1), 2);
    assert_eq!(start_delay_secs(2), 4);
    assert_eq!(start_delay_secs(3), 0);
    assert_eq!(start_delay_secs(4), 2);
    assert_eq!(concurrency_limit(0), 1);
    assert_eq!(concurrency_limit(5), 5);
    assert_eq!(download_timeout_secs(Some(3601)), 1800);
    assert_eq!(download_timeout_secs(Some(3600)), 600);
    assert_eq!(download_timeout_secs(None), 600);
}

#[test]
fn video_pages() {
    assert_eq!(video_page_url("abc", false), "https://www.youtube.com/watch?v=abc");
    assert_eq!(video_page_url("123", true), "https://www.tiktok.com/@_/video/123");
    assert_eq!(video_page_url("https://x/y", true), "https://x/y");
    assert_eq!(video_page_url("https://x/y", false), "https://x/y");
}

#[test]
fn comment_arguments() {
    assert_eq!(
        comment_args("c", &Some("P".to_string()), "d/s.%(ext)s", "U"),
        with_extra(&[
            "--cookies", "c", "--proxy", "P", "--write-comments", "--skip-download",
            "--no-warnings", "--force-ipv4", "-o", "d/s.%(ext)s", "U"
        ])
    );
}

#[test]
fn first_characters() {
    assert_eq!(take_chars("héllo", 2), "hé");
    assert_eq!(take_chars("hi", 200), "hi");
}

fn request() -> DownloadRequest {
    DownloadRequest {
        cookie_file: String::new(),
        is_tiktok: false,
        no_watermark: false,
        impersonate: false,
        selector: "bv*+ba/b".to_string(),
        template: "d/s.%(ext)s".to_string(),
        max_concurrent: 3,
        write_info_json: false,
        format: "mp4".to_string(),
        auto_tag: false,
        video_title: "Artist - Song".to_string(),
        proxy: None,
        url: "U".to_string(),
    }
}

const COMMON: [&str; 30] = [
    "-f", "bv*+ba/b", "-o", "d/s.%(ext)s", "--no-overwrites", "--continue", "--no-warnings",
    "--force-ipv4", "--retries", "10", "--fragment-retries", "10", "--socket-timeout", "30",
    "--throttled-rate", "100K", "--file-access-retries", "5", "--retry-sleep", "3",
    "--buffer-size", "16K", "--extractor-retries", "3", "--sleep-requests", "1",
    "--concurrent-fragments", "3", "--progress", "--newline",
];

#[test]
fn video_download_arguments() {
    let mut expected = with_extra(&COMMON);
    expected.extend(strings(&["--merge-output-format", "mp4", "U"]));
    assert_eq!(download_args(&request()), expected);
}

#[test]
fn tiktok_audio_download_arguments() {
    let mut q = request();
    q.cookie_file = "c".to_string();
    q.is_tiktok = true;
    q.no_watermark = true;
    q.impersonate = true;
    q.format = "mp3".to_string();
    q.auto_tag = true;
    q.write_info_json = true;
    q.proxy = Some("P".to_string());
    let mut expected = with_extra(&[
        "--cookies",
        "c",
        "--extractor-args",
        "tiktok:api_hostname=api16-normal-c-useast1a.tiktokv.com;video_codec=h264",
        "--impersonate",
        "chrome",
    ]);
    expected.extend(strings(&COMMON));
    expected.extend(strings(&[
        "--write-info-json", "--extract-audio", "--audio-format", "mp3", "--parse-metadata",
        "title:Song", "--parse-metadata", "artist:Artist", "--proxy", "P", "U",
    ]));
    assert_eq!(download_args(&q), expected);
}

#[test]
fn tagging_needs_an_artist() {
    let mut q = request();
    q.format = "flac".to_string();
    q.auto_tag = true;
    q.video_title = "Just a title".to_string();
    let mut expected = with_extra(&COMMON);
    expected.extend(strings(&["--extract-audio", "--audio-format", "flac", "U"]));
    assert_eq!(download_args(&q), expected);
}

#[test]
fn subtitle_arguments() {
    assert!(wants_subtitles(true, "mp4"));
    assert!(!wants_subtitles(true, "mp3"));
    assert!(!wants_subtitles(false, "mkv"));
    assert_eq!(
        subtitle_args("", false, &None, "avi", &None, "t", "U"),
        with_extra(&[
            "--write-subs", "--convert-subs", "srt", "--skip-download", "--sub-langs", "en",
            "--no-overwrites", "--no-warnings", "--force-ipv4", "--sleep-requests", "1", "-o",
            "t", "U"
        ])
    );
    assert_eq!(
        subtitle_args("c", true, &Some("vi,en".to_string()), "mkv", &Some("P".to_string()), "t", "U"),
        with_extra(&[
            "--cookies", "c", "--write-subs", "--convert-subs", "srt", "--skip-download",
            "--write-auto-subs", "--sub-langs", "vi,en", "--embed-subs", "--no-overwrites",
            "--no-warnings", "--force-ipv4", "--sleep-requests", "1", "--proxy", "P", "-o", "t",
            "U"
        ])
    );
}

const RETRY_FIXED: [&str; 23] = [
    "-f", "best", "-o", "t", "--no-overwrites", "--no-warnings", "--force-ipv4", "--retries", "3",
    "--fragment-retries", "3", "--socket-timeout", "30", "--throttled-rate", "100K",
    "--extractor-retries", "2", "--sleep-requests", "1", "--progress", "--newline",
    "--merge-output-format", "webm",
];

#[test]
fn retry_arguments() {
    let mut expected = with_extra(&RETRY_FIXED);
    expected.push("U".to_string());
    assert_eq!(retry_args("", false, true, true, "t", "webm", &None, "U"), expected);
    let mut expected = with_extra(&[
        "--cookies", "c", "--extractor-args", "tiktok:video_codec=h264", "--impersonate", "chrome",
        "--extractor-retries", "5",
    ]);
    expected.extend(strings(&RETRY_FIXED));
    expected.extend(strings(&["--proxy", "P", "U"]));
    assert_eq!(
        retry_args("c", true, true, true, "t", "webm", &Some("P".to_string()), "U"),
        expected
    );
}

#[test]
fn progress_lines() {
    assert_eq!(progress_percent("[download]  42.5% of 10.00MiB"), Some("42.5".to_string()));
    assert_eq!(progress_percent("[download] Destination: x.mp4"), None);
    assert_eq!(progress_percent("42%"), None);
    assert_eq!(
        line_progress("[download]   1.0% of 5MiB\r[download]  50.0% of 5MiB\rjunk"),
        strings(&["1.0", "50.0"])
    );
    assert_eq!(line_progress(""), Vec::<String>::new());
    assert_eq!(progress_status("42.5"), "downloading 42.5%");
}

#[test]
fn retry_decisions() {
    assert_eq!(retry_reason("ERROR: HTTP Error 503", false, false), Some(RetryReason::ServerBusy));
    assert_eq!(retry_reason("ERROR: HTTP Error 503", false, true), None);
    assert_eq!(retry_reason("No video formats found", true, false), Some(RetryReason::NoFormats));
    assert_eq!(retry_reason("No video formats found", false, false), None);
    assert_eq!(retry_reason("Giving up after 10 retries", false, false), Some(RetryReason::Network));
    assert_eq!(retry_reason("1024 bytes read, 10 more expected", true, false), Some(RetryReason::Network));
    assert_eq!(
        retry_reason("HTTP Error 503; Giving up after 3; No video formats found", true, false),
        Some(RetryReason::ServerBusy)
    );
    assert_eq!(
        retry_reason("Giving up after 3; No video formats found", true, false),
        Some(RetryReason::NoFormats)
    );
    assert_eq!(retry_reason("HTTP Error 404", false, false), None);
    assert_eq!(
        retry_log_line(RetryReason::ServerBusy),
        "  -> Server busy (503), retrying with single-stream format..."
    );
    assert_eq!(
        retry_log_line(RetryReason::NoFormats),
        "  -> No video formats found, retrying without custom API hostname..., retrying with single-stream format..."
    );
    assert_eq!(
        retry_log_line(RetryReason::Network),
        "  -> Network error, retrying with single-stream format..."
    );
}

#[test]
fn failure_kinds_in_priority_order() {
    assert_eq!(classify_failure("Join this channel to get access"), FailureKind::MembersOnly);
    assert_eq!(classify_failure("Sign in to confirm you're not a bot"), FailureKind::MembersOnly);
    assert_eq!(classify_failure("members-only content; HTTP Error 429"), FailureKind::MembersOnly);
    assert_eq!(classify_failure("Video unavailable. HTTP Error 429"), FailureKind::Unavailable);
    assert_eq!(classify_failure("Private video"), FailureKind::Unavailable);
    assert_eq!(classify_failure("HTTP Error 429: Too Many Requests"), FailureKind::RateLimited);
    assert_eq!(classify_failure("HTTP Error 403: Forbidden"), FailureKind::CookieExpired);
    assert_eq!(classify_failure("the robot said no"), FailureKind::CookieExpired);
    assert_eq!(classify_failure("Please Sign in"), FailureKind::CookieExpired);
    assert_eq!(classify_failure("bad cookie file"), FailureKind::CookieExpired);
    assert_eq!(classify_failure("HTTP Error 503"), FailureKind::ServerBusy);
    assert_eq!(classify_failure("Giving up after 10 retries"), FailureKind::NetworkError);
    assert_eq!(classify_failure("5 bytes read"), FailureKind::NetworkError);
    assert_eq!(classify_failure(""), FailureKind::Failed);
    assert_eq!(classify_failure("something else"), FailureKind::Failed);
}

#[test]
fn failure_labels_and_hints() {
    assert_eq!(failure_label(FailureKind::MembersOnly), "Members only");
    assert_eq!(failure_label(FailureKind::Unavailable), "Unavailable");
    assert_eq!(failure_label(FailureKind::RateLimited), "Rate limited");
    assert_eq!(failure_label(FailureKind::CookieExpired), "Cookie expired");
    assert_eq!(failure_label(FailureKind::ServerBusy), "Server busy");
    assert_eq!(failure_label(FailureKind::NetworkError), "Network error");
    assert_eq!(failure_label(FailureKind::Failed), "Failed");
    assert_eq!(failure_hint(FailureKind::CookieExpired, false), Some(COOKIE_HINT.to_string()));
    assert_eq!(failure_hint(FailureKind::MembersOnly, true), Some(COOKIE_HINT.to_string()));
    assert_eq!(failure_hint(FailureKind::RateLimited, true), Some(RATE_LIMIT_HINT.to_string()));
    assert_eq!(failure_hint(FailureKind::RateLimited, false), None);
    assert_eq!(failure_hint(FailureKind::Failed, true), None);
    assert_eq!(
        COOKIE_HINT,
        "  Hint: Your cookies may have expired. Please re-export from browser and paste again."
    );
}

#[test]
fn comment_failures() {
    assert_eq!(comment_error_hint("HTTP Error 403"), Some(COOKIE_HINT.to_string()));
    assert_eq!(comment_error_hint("timeout"), None);
    assert_eq!(comment_error_line("x"), "  -> Comment error: x");
}

#[test]
fn error_output_lines() {
    assert_eq!(lines_of("a\r\nb\n\nc"), strings(&["a", "b", "", "c"]));
    assert_eq!(lines_of("x\n"), strings(&["x"]));
    assert_eq!(lines_of(""), Vec::<String>::new());
    let many: String = (0..45).map(|i| format!("line {}\n", i)).collect();
    let shown = error_log_lines(&many);
    assert_eq!(shown.len(), 40);
    assert_eq!(shown[0], "  | line 0");
    assert_eq!(shown[39], "  | line 39");
    assert_eq!(error_log_lines("oops"), strings(&["  | oops"]));
}

#[test]
fn batch_sources() {
    match batch_source(true, true, "https://www.tiktok.com/@bob.x_1/video/9\nmore") {
        BatchSource::TikTokUser(u) => assert_eq!(u, "bob.x_1"),
        other => panic!("unexpected {:?}", other),
    }
    assert!(matches!(batch_source(true, false, "a,b"), BatchSource::TikTokVideos));
    assert!(matches!(batch_source(false, true, "a\nb"), BatchSource::SingleVideo));
    assert!(matches!(batch_source(false, false, "a\nb"), BatchSource::VideoList));
    assert!(matches!(batch_source(false, false, "PL1"), BatchSource::Playlist));
    assert!(matches!(
        batch_source(false, false, "https://www.tiktok.com/@bob"),
        BatchSource::Playlist
    ));
}

#[test]
fn tiktok_user_names() {
    assert_eq!(tiktok_username("https://www.tiktok.com/@bob/video/1"), Some("bob".to_string()));
    assert_eq!(tiktok_username("tiktok.com/@a.b-c_d?x=1"), Some("a.b-c_d".to_string()));
    assert_eq!(tiktok_username("https://www.tiktok.com/@"), None);
    assert_eq!(tiktok_username("https://vm.tiktok.com/ZMabc/"), None);
}

#[test]
fn video_list_batches() {
    match video_list_batch(Vec::new()) {
        Err(e) => assert_eq!(e, "Could not fetch info for any of the provided URLs"),
        Ok(_) => panic!("an empty list has no batch"),
    }
    let (title, vs, sel) = video_list_batch(vec![video("a", "A"), video("b", "B")]).unwrap();
    assert_eq!(title, "2 videos");
    assert_eq!(vs.len(), 2);
    assert_eq!(vs[1].id, "b");
    assert_eq!(sel, vec![0, 1]);
}

#[test]
fn tagging_commands() {
    assert_eq!(tagged_source_name("mp3"), "video.mp3");
    assert_eq!(tagged_output_name("mp3"), "video_tagged.mp3");
    assert_eq!(thumbnail_fetch_args("http://t", "d/thumb.jpg"), strings(&["-sL", "http://t", "-o", "d/thumb.jpg"]));
    assert_eq!(
        tag_command("v.mp3", "t.jpg", "o.mp3", "mp3", "Artist - Song (Official Audio)", "PL"),
        strings(&[
            "-y", "-i", "v.mp3", "-i", "t.jpg", "-map", "0:a", "-map", "1:0", "-c:a", "copy",
            "-c:v", "mjpeg", "-id3v2_version", "3", "-metadata", "title=Song", "-metadata",
            "artist=Artist", "-metadata", "album=PL", "o.mp3"
        ])
    );
    assert_eq!(
        tag_command("v.flac", "t.jpg", "o.flac", "flac", "Song", ""),
        strings(&[
            "-y", "-i", "v.flac", "-i", "t.jpg", "-map", "0:a", "-map", "1:0", "-c:a", "copy",
            "-c:v", "copy", "-metadata", "title=Song", "o.flac"
        ])
    );
    assert_eq!(
        tag_command("v.mp4", "t.jpg", "o.mp4", "mp4", "Just a title", "L"),
        strings(&[
            "-y", "-i", "v.mp4", "-i", "t.jpg", "-map", "0", "-map", "1:0", "-c", "copy",
            "-disposition:v:1", "attached_pic", "-metadata", "title=Just a title", "-metadata",
            "album=L", "o.mp4"
        ])
    );
    assert_eq!(
        converter_error(&"x".repeat(300)),
        format!("ffmpeg error: {}", "x".repeat(200))
    );
    assert_eq!(converter_error(""), "ffmpeg error: ");
}

#[test]
fn installer_inputs() {
    assert_eq!(python_candidates(true), strings(&["python", "python3", "py"]));
    assert_eq!(
        python_candidates(false),
        strings(&["python3", "python", "/usr/bin/python3", "/usr/local/bin/python3"])
    );
    assert_eq!(default_python(true), "python");
    assert_eq!(default_python(false), "python3");
    assert_eq!(
        full_install(),
        strings(&["-m", "pip", "install", "--upgrade", "yt-dlp", "curl_cffi"])
    );
    assert_eq!(helper_install(), strings(&["-m", "pip", "install", "--upgrade", "curl_cffi"]));
    assert_eq!(pip_install_args(&Vec::new()), strings(&["-m", "pip", "install", "--upgrade"]));
    assert!(impersonation_supported(true, "Client  OS\nchrome-110  windows"));
    assert!(!impersonation_supported(false, "chrome"));
    assert!(!impersonation_supported(true, "safari"));
    assert_eq!(reported_version("  2024.08.06\n"), "2024.08.06");
    assert_eq!(default_app_data("bob"), "C:\\Users\\bob\\AppData\\Roaming");
    assert_eq!(
        powershell_fetch_command("https://u", "C:\\d\\yt-dlp.exe"),
        "Invoke-WebRequest -Uri 'https://u' -OutFile 'C:\\d\\yt-dlp.exe'"
    );
    assert_eq!(default_ytdlp_program(true), "yt-dlp.exe");
    assert_eq!(default_ytdlp_program(false), "yt-dlp");
}

#[test]
fn windows_search_dirs() {
    assert_eq!(
        windows_tool_dirs("C:\\L", "C:\\PF", "C:\\PF86", "C:\\AD"),
        strings(&[
            "C:\\L\\Programs\\Python",
            "C:\\L\\Programs\\Python\\Python311",
            "C:\\L\\Programs\\Python\\Python310",
            "C:\\L\\Programs\\Python\\Python39",
            "C:\\PF\\Python311",
            "C:\\PF\\Python310",
            "C:\\PF\\Python39",
            "C:\\PF86\\Python311",
            "C:\\AD\\yt-playlist-downloader",
        ])
    );
    assert_eq!(
        windows_tool_dirs("", "C:\\PF", "C:\\PF86", ""),
        strings(&["C:\\PF\\Python311", "C:\\PF\\Python310", "C:\\PF\\Python39", "C:\\PF86\\Python311"])
    );
}

#[test]
fn unix_search_dirs() {
    assert_eq!(
        unix_tool_dirs("/home/u", &Vec::new()),
        strings(&[
            "/home/u/.nvm/versions/node/v20.14.0/bin",
            "/home/u/.cargo/bin",
            "/usr/local/bin",
            "/opt/homebrew/bin",
            "/usr/bin",
        ])
    );
    assert_eq!(
        unix_tool_dirs("/h", &strings(&["/h/n1/bin", "/h/n2/bin"])),
        strings(&["/h/n1/bin", "/h/n2/bin", "/h/.cargo/bin", "/usr/local/bin", "/opt/homebrew/bin", "/usr/bin"])
    );
}

#[test]
fn search_path_keeps_every_folder_once() {
    let dirs = strings(&["/a", "/b"]);
    assert_eq!(search_path(&dirs, &Some("/b:/c:/a:/c".to_string()), ':'), "/a:/b:/c");
    assert_eq!(search_path(&dirs, &None, ':'), "/a:/b");
    assert_eq!(search_path(&dirs, &Some(String::new()), ':'), "/a:/b:");
    assert_eq!(search_path(&strings(&["C:\\x"]), &Some("C:\\y;C:\\x".to_string()), ';'), "C:\\x;C:\\y");
    assert_eq!(merge_dir_lists(&dirs, &strings(&["/c", "/a", "/c"])), strings(&["/a", "/b", "/c"]));
    assert_eq!(join_parts(&Vec::new(), ':'), "");
}

#[test]
fn steps_after_a_first_attempt() {
    let saved = AttemptEnd::Ended { waited: true, saved: true };
    let missing = AttemptEnd::Ended { waited: true, saved: false };
    let lost = AttemptEnd::Ended { waited: false, saved: true };
    assert_eq!(first_attempt_step(saved, "HTTP Error 503", false, false), NextStep::Done);
    assert_eq!(first_attempt_step(AttemptEnd::TimedOut, "HTTP Error 503", false, false), NextStep::TimedOut);
    assert_eq!(
        first_attempt_step(missing, "HTTP Error 503", false, false),
        NextStep::Retry(RetryReason::ServerBusy)
    );
    assert_eq!(
        first_attempt_step(lost, "Giving up after 3", false, false),
        NextStep::Retry(RetryReason::Network)
    );
    assert_eq!(
        first_attempt_step(missing, "HTTP Error 503", false, true),
        NextStep::Report(FailureKind::ServerBusy)
    );
    assert_eq!(
        first_attempt_step(missing, "Private video", false, false),
        NextStep::Report(FailureKind::Unavailable)
    );
}

#[test]
fn steps_after_a_retry() {
    assert_eq!(retry_attempt_step(AttemptEnd::Ended { waited: true, saved: true }, ""), NextStep::Done);
    assert_eq!(retry_attempt_step(AttemptEnd::Ended { waited: true, saved: false }, "HTTP Error 429"), NextStep::Failed);
    assert_eq!(
        retry_attempt_step(AttemptEnd::Ended { waited: false, saved: true }, "HTTP Error 429"),
        NextStep::Report(FailureKind::RateLimited)
    );
    assert_eq!(
        retry_attempt_step(AttemptEnd::TimedOut, "HTTP Error 503"),
        NextStep::Report(FailureKind::ServerBusy)
    );
}

fn run_install(windows: bool, events: Vec<InstallEvent>) -> (Vec<String>, InstallState) {
    let mut state = InstallState::Start;
    let mut seen = Vec::new();
    for event in events {
        let (next, action) = install_next(state, event, windows);
        state = next;
        seen.push(format!("{:?}", action));
    }
    (seen, state)
}

#[test]
fn install_with_the_package_installer() {
    let (seen, state) = run_install(false, vec![
        InstallEvent::Begin,
        InstallEvent::Ran { ok: true },
        InstallEvent::VersionRan { ok: true, stdout: " 2024.08.06\n".to_string() },
    ]);
    assert_eq!(seen, vec!["RunInstaller", "CheckVersion", "Succeed(\"2024.08.06\")"]);
    assert_eq!(state, InstallState::Finished);
}

#[test]
fn install_by_fetching_on_unix() {
    let (seen, state) = run_install(false, vec![
        InstallEvent::Begin,
        InstallEvent::Ran { ok: false },
        InstallEvent::FolderMade { failed: Some("denied".to_string()) },
        InstallEvent::Fetched { ok: true, exists: true },
        InstallEvent::Ran { ok: true },
        InstallEvent::Ran { ok: false },
        InstallEvent::VersionRan { ok: false, stdout: "v1".to_string() },
    ]);
    assert_eq!(seen, vec![
        "RunInstaller", "PrepareFolder", "FetchWithCurl", "MakeExecutable", "UseFetchedProgram",
        "CheckVersion", "Succeed(\"v1\")",
    ]);
    assert_eq!(state, InstallState::Finished);
    let (seen, _) = run_install(false, vec![
        InstallEvent::Begin,
        InstallEvent::Ran { ok: true },
        InstallEvent::VersionRan { ok: false, stdout: String::new() },
        InstallEvent::FolderMade { failed: None },
        InstallEvent::Fetched { ok: true, exists: false },
    ]);
    assert_eq!(seen[4], format!("Fail({:?})", UNIX_FETCH_ERROR));
}

#[test]
fn install_by_fetching_on_windows() {
    let (seen, _) = run_install(true, vec![
        InstallEvent::Begin,
        InstallEvent::Ran { ok: false },
        InstallEvent::FolderMade { failed: None },
        InstallEvent::Fetched { ok: false, exists: false },
        InstallEvent::Fetched { ok: true, exists: true },
        InstallEvent::Ran { ok: true },
        InstallEvent::VersionFailed { error: "not found".to_string() },
    ]);
    assert_eq!(seen, vec![
        "RunInstaller", "PrepareFolder", "FetchWithCurl", "FetchWithPowerShell",
        "UseFetchedProgram", "CheckVersion", "Fail(\"yt-dlp version check failed: not found\")",
    ]);
    let (seen, _) = run_install(true, vec![
        InstallEvent::Begin,
        InstallEvent::Ran { ok: false },
        InstallEvent::FolderMade { failed: Some("denied".to_string()) },
    ]);
    assert_eq!(seen[2], "Fail(\"Cannot create dir: denied\")");
    let (seen, _) = run_install(true, vec![
        InstallEvent::Begin,
        InstallEvent::Ran { ok: false },
        InstallEvent::FolderMade { failed: None },
        InstallEvent::Fetched { ok: true, exists: false },
        InstallEvent::Fetched { ok: false, exists: true },
    ]);
    assert_eq!(seen[4], format!("Fail({:?})", WINDOWS_FETCH_ERROR));
}

#[test]
fn install_steps_out_of_order() {
    let (seen, state) = run_install(false, vec![InstallEvent::Ran { ok: true }]);
    assert_eq!(seen, vec!["Fail(\"installer step out of order\")"]);
    assert_eq!(state, InstallState::Finished);
    assert!(matches!(
        install_next(InstallState::Finished, InstallEvent::Begin, false).1,
        InstallAction::Fail(_)
    ));
}

#[test]
fn release_locations() {
    assert_eq!(release_folder(false, "/home/u", "C:\\AD"), "/home/u/.local/bin");
    assert_eq!(release_folder(true, "/home/u", "C:\\AD"), "C:\\AD\\yt-playlist-downloader");
    assert_eq!(release_target(false, "/home/u", "C:\\AD"), "/home/u/.local/bin/yt-dlp");
    assert_eq!(release_target(true, "/home/u", "C:\\AD"), "C:\\AD\\yt-playlist-downloader\\yt-dlp.exe");
    assert_eq!(
        release_fetch_args(false, "/t/yt-dlp"),
        strings(&["-sL", "https://github.com/yt-dlp/yt-dlp/releases/latest/download/yt-dlp", "-o", "/t/yt-dlp"])
    );
    assert_eq!(
        release_fetch_args(true, "C:\\t.exe"),
        strings(&["-sL", "https://github.com/yt-dlp/yt-dlp/releases/latest/download/yt-dlp.exe", "-o", "C:\\t.exe"])
    );
    assert_eq!(
        release_powershell_args("C:\\t.exe"),
        strings(&[
            "-NoProfile",
            "-Command",
            "Invoke-WebRequest -Uri 'https://github.com/yt-dlp/yt-dlp/releases/latest/download/yt-dlp.exe' -OutFile 'C:\\t.exe'",
        ])
    );
}

#[test]
fn helper_interpreters_in_order() {
    assert!(matches!(helper_next(false, 0, false), HelperStep::Try(p) if p == "python3"));
    assert!(matches!(helper_next(false, 3, false), HelperStep::Try(p) if p == "/usr/local/bin/python3"));
    assert!(matches!(helper_next(false, 4, false), HelperStep::Finished(false)));
    assert!(matches!(helper_next(true, 2, false), HelperStep::Try(p) if p == "py"));
    assert!(matches!(helper_next(true, 3, false), HelperStep::Finished(false)));
    assert!(matches!(helper_next(true, 1, true), HelperStep::Finished(true)));
}
