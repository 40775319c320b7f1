use yt_playlist_downloader::files::{
    comments_file_name, cookie_file_name, download_name_candidates, find_output_file,
    has_media_file, is_info_json, is_media_file_of, is_output_file_of, is_stale_partial_file,
    media_file_name, output_template,
};
use yt_playlist_downloader::utils::{
    extract_playlist_id, folder_name_cut_ok, is_audio, parse_title_metadata, playlist_url,
    quality_format, sanitize_folder_name, slugify, split_artist_title, thumbnail_url, watch_url,
    yt_dlp_extra,
};

fn strings(items: &[&str]) -> Vec<String> {
    items.iter().map(|s| s.to_string()).collect()
}

#[test]
fn quality_format_video_heights() {
    assert_eq!(
        quality_format("1080p", "mp4"),
        "bv*[height<=1080]+ba/b[height<=1080]/bv*+ba/b"
    );
    assert_eq!(
        quality_format("720p", "mkv"),
        "bv*[height<=720]+ba/b[height<=720]/bv*+ba/b"
    );
    assert_eq!(
        quality_format("480p", "webm"),
        "bv*[height<=480]+ba/b[height<=480]/bv*+ba/b"
    );
    assert_eq!(quality_format("best", "mp4"), "bv*+ba/b");
    assert_eq!(quality_format("", "avi"), "bv*+ba/b");
}

#[test]
fn quality_format_audio_ignores_quality() {
    for f in ["mp3", "flac", "wav", "ogg", "m4a"] {
        assert_eq!(quality_format("1080p", f), "ba/b");
        assert_eq!(quality_format("best", f), "ba/b");
        assert!(is_audio(f));
    }
    assert!(!is_audio("mp4"));
    assert!(!is_audio("MP3"));
}

#[test]
fn extra_arguments_are_fixed() {
    assert_eq!(
        yt_dlp_extra(),
        strings(&["--js-runtimes", "node", "--remote-components", "ejs:github"])
    );
}

#[test]
fn playlist_id_from_list_parameter() {
    assert_eq!(
        extract_playlist_id("https://www.youtube.com/playlist?list=PLabc_123-x"),
        Some("PLabc_123-x".to_string())
    );
    assert_eq!(
        extract_playlist_id("https://www.youtube.com/watch?v=xyz&list=PL99&index=2"),
        Some("PL99".to_string())
    );
    assert_eq!(
        extract_playlist_id("https://x.com/?list=&list=AB"),
        Some("AB".to_string())
    );
}

#[test]
fn playlist_id_from_bare_id() {
    assert_eq!(extract_playlist_id("  PLplainID  "), Some("PLplainID".to_string()));
    assert_eq!(extract_playlist_id("not a url!"), None);
    assert_eq!(extract_playlist_id("https://youtube.com/watch?v=abc"), None);
    assert_eq!(extract_playlist_id(""), None);
    assert_eq!(extract_playlist_id("   "), None);
}

#[test]
fn playlist_id_is_stable() {
    for url in [
        "https://www.youtube.com/watch?v=xyz&list=PL99&index=2",
        " PL_a-b ",
        "?list=Q",
    ] {
        let id = extract_playlist_id(url).unwrap();
        assert_eq!(extract_playlist_id(&id), Some(id.clone()));
    }
}

#[test]
fn title_metadata_with_artist() {
    assert_eq!(
        parse_title_metadata("Artist - Song (Official Video)"),
        ("Artist".to_string(), "Song".to_string(), String::new())
    );
    assert_eq!(
        parse_title_metadata("  A  -  B [HD] x "),
        ("A".to_string(), "B x".to_string(), String::new())
    );
    assert_eq!(
        parse_title_metadata("X - Y (feat. Z)"),
        ("X".to_string(), "Y (feat. Z)".to_string(), String::new())
    );
    assert_eq!(
        parse_title_metadata("X - Y {Lyric Video} - more"),
        ("X".to_string(), "Y - more".to_string(), String::new())
    );
}

#[test]
fn title_metadata_without_artist() {
    assert_eq!(
        parse_title_metadata("Title without dash (Official)"),
        (String::new(), "Title without dash (Official)".to_string(), String::new())
    );
    assert_eq!(
        split_artist_title("a-b"),
        None
    );
    assert_eq!(
        split_artist_title(" a - b "),
        Some(("a".to_string(), "b".to_string()))
    );
}

#[test]
fn folder_name_removes_forbidden_characters() {
    let name = "a<b>c:d\"e/f\\g|h?i*j";
    assert!(folder_name_cut_ok(name));
    assert_eq!(sanitize_folder_name(name), "abcdefghij");
}

#[test]
fn folder_name_collapses_white_space() {
    let name = "  many   spaces\tand\nlines ";
    assert!(folder_name_cut_ok(name));
    assert_eq!(sanitize_folder_name(name), "many spaces and lines");
    assert_eq!(sanitize_folder_name(""), "");
}

#[test]
fn folder_name_cut_to_200_bytes() {
    let long = "a".repeat(250);
    assert!(folder_name_cut_ok(&long));
    assert_eq!(sanitize_folder_name(&long), "a".repeat(200));
    let accented = "é".repeat(101);
    assert!(folder_name_cut_ok(&accented));
    assert_eq!(sanitize_folder_name(&accented), "é".repeat(100));
}

#[test]
fn folder_name_cut_inside_character_is_refused() {
    let name = format!("a{}", "é".repeat(100));
    assert!(!folder_name_cut_ok(&name));
}

#[test]
fn folder_name_is_idempotent() {
    let once = sanitize_folder_name("  x <y>   z?? ");
    assert_eq!(once, "x y z");
    assert_eq!(sanitize_folder_name(&once), once);
}

#[test]
fn long_folder_name_cut_after_a_space() {
    let name = format!("{} bcd", "a".repeat(199));
    let once = sanitize_folder_name(&name);
    assert_eq!(once, format!("{} ", "a".repeat(199)));
    assert_eq!(sanitize_folder_name(&once), "a".repeat(199));
    let name = format!("{} {}", "a".repeat(150), "b".repeat(100));
    let once = sanitize_folder_name(&name);
    assert_eq!(once, format!("{} {}", "a".repeat(150), "b".repeat(49)));
    assert_eq!(sanitize_folder_name(&once), once);
}

#[test]
fn slug_of_plain_title() {
    assert_eq!(slugify("Hello World"), "hello-world");
    assert_eq!(slugify("  --Rock & Roll--  "), "rock-roll");
    assert_eq!(slugify("a-b"), "ab");
}

#[test]
fn slug_drops_accents_and_other_scripts() {
    assert_eq!(slugify("Café Déjà Vu!"), "cafe-deja-vu");
    assert_eq!(slugify("日本語"), "");
    assert_eq!(slugify("Ünïcödé 2024"), "unicode-2024");
}

#[test]
fn slug_cut_to_150_without_trailing_hyphen() {
    let title = "a ".repeat(100);
    let slug = slugify(&title);
    assert_eq!(slug.len(), 149);
    assert!(slug.ends_with('a'));
    assert!(!slug.contains("--"));
    let long = "b".repeat(200);
    assert_eq!(slugify(&long), "b".repeat(150));
}

#[test]
fn urls_of_a_video() {
    assert_eq!(watch_url("abc"), "https://www.youtube.com/watch?v=abc");
    assert_eq!(thumbnail_url("abc"), "https://i.ytimg.com/vi/abc/hqdefault.jpg");
    assert_eq!(playlist_url("PL1"), "https://www.youtube.com/playlist?list=PL1");
}

#[test]
fn media_files_of_a_video() {
    assert!(is_media_file_of("my-song.MP4", "my-song"));
    assert!(is_media_file_of("video.webm", "x"));
    assert!(!is_media_file_of("my-song.txt", "my-song"));
    assert!(!is_media_file_of("other.mp4", "my-song"));
    assert!(!is_media_file_of("my-song", "my-song"));
}

#[test]
fn output_files_of_a_video() {
    assert!(is_output_file_of("my-song.f137.MKV", "my-song", "mkv"));
    assert!(is_output_file_of("video.mp3", "s", "mp3"));
    assert!(!is_output_file_of("my-song.mp4", "my-song", "mkv"));
}

#[test]
fn stale_partial_files() {
    assert!(is_stale_partial_file("slug.webm", "slug", "mp4"));
    assert!(is_stale_partial_file("slug.f251.WEBM", "slug", "mp4"));
    assert!(!is_stale_partial_file("slug.mp4", "slug", "mp4"));
    assert!(!is_stale_partial_file("video.webm", "slug", "mp4"));
    assert!(!is_stale_partial_file("slug.part", "slug", "mp4"));
}

#[test]
fn info_files() {
    assert!(is_info_json("a.info.json"));
    assert!(!is_info_json("a.json"));
}

#[test]
fn file_names() {
    assert_eq!(media_file_name("s", "mp4"), "s.mp4");
    assert_eq!(output_template("s"), "s.%(ext)s");
    assert_eq!(comments_file_name(true, "s"), "s-comments.html");
    assert_eq!(comments_file_name(false, "s"), "comments.html");
    assert_eq!(cookie_file_name(1700000000123), "cookies_1700000000123.txt");
    assert_eq!(cookie_file_name(0), "cookies_0.txt");
}

#[test]
fn names_checked_by_update_runs() {
    let names = download_name_candidates("s");
    assert_eq!(names.len(), 18);
    assert_eq!(names[0], "s.mp4");
    assert_eq!(names[1], "video.mp4");
    assert_eq!(names[2], "s.mp3");
    assert_eq!(names[17], "video.m4a");
}

#[test]
fn folder_listing_checks() {
    let listing = strings(&["notes.txt", "s.f137.mp4.part", "S.MP4", "s.WebM"]);
    assert!(has_media_file(&listing, "s"));
    assert!(!has_media_file(&strings(&["notes.txt", "s.part"]), "s"));
    assert!(!has_media_file(&Vec::new(), "s"));
    assert_eq!(find_output_file(&listing, "s", "webm"), Some(3));
    assert_eq!(find_output_file(&listing, "s", "mkv"), None);
}
