use yt_playlist_downloader::escape::html_escape;
use yt_playlist_downloader::export::{
    comment_entry, comments_csv, export_date_text, export_file_name, export_message, plan_export,
    video_export, ExportKind,
};
use yt_playlist_downloader::html::{
    build_nested_html, comment_date_text, format_duration, index_html, index_row,
    initials_whole, render_comment, video_comments_page,
};
use yt_playlist_downloader::types::{Comment, CommentEntry, CommentExport, VideoInfo};

fn comment(id: &str, parent: Option<&str>, author: &str, text: &str) -> Comment {
    Comment {
        id: Some(id.to_string()),
        parent: parent.map(|p| p.to_string()),
        author: Some(author.to_string()),
        author_id: Some(format!("@{}", author)),
        author_thumbnail: None,
        author_is_uploader: None,
        text: Some(text.to_string()),
        like_count: None,
        timestamp: None,
    }
}

fn expected_comment(avatar: &str, initial: &str, author_id: &str, author: &str, badge: &str, date: &str, text: &str, likes: u64) -> String {
    format!(
        r#"<div class="comment">
            <img class="avatar" src="{}" alt="" onerror="this.src='https://ui-avatars.com/api/?name={}&background=random&color=fff&size=40'">
            <div class="comment-body">
                <div class="comment-header">
                    <a href="https://www.youtube.com/@{}" target="_blank" class="author">{}</a>
                    {}
                    <span class="date">{}</span>
                </div>
                <p class="comment-text">{}</p>
                <div class="comment-meta">
                    <span class="likes">&#9650; {}</span>
                </div>
            </div>
        </div>"#,
        avatar, initial, author_id, author, badge, date, text, likes
    )
}

#[test]
fn escaping_html() {
    assert_eq!(
        html_escape("<a href=\"x\">Tom & Jerry's</a>"),
        "&lt;a href=&quot;x&quot;&gt;Tom &amp; Jerry's&lt;/a&gt;"
    );
    assert_eq!(html_escape("&amp;"), "&amp;amp;");
    assert_eq!(html_escape(""), "");
    let e = html_escape("<<\">>");
    assert!(!e.contains('<') && !e.contains('>') && !e.contains('"'));
}

#[test]
fn durations() {
    assert_eq!(format_duration(0), "0:00");
    assert_eq!(format_duration(59), "0:59");
    assert_eq!(format_duration(61), "1:01");
    assert_eq!(format_duration(3599), "59:59");
    assert_eq!(format_duration(3600), "1:00:00");
    assert_eq!(format_duration(3725), "1:02:05");
    assert_eq!(format_duration(360000), "100:00:00");
}

#[test]
fn comment_dates() {
    let mut c = comment("1", Some("root"), "Bob", "hi");
    assert_eq!(comment_date_text(&c), "");
    c.timestamp = Some(0);
    assert_eq!(comment_date_text(&c), "01/01/1970 00:00");
    c.timestamp = Some(1700000000);
    assert_eq!(comment_date_text(&c), "14/11/2023 22:13");
    c.timestamp = Some(u64::MAX);
    assert_eq!(comment_date_text(&c), "");
}

#[test]
fn export_dates() {
    let mut c = comment("1", Some("root"), "Bob", "hi");
    assert_eq!(export_date_text(&c), "01/01/1970 00:00");
    c.timestamp = Some(1700000000);
    assert_eq!(export_date_text(&c), "14/11/2023 22:13");
    c.timestamp = Some(u64::MAX);
    assert_eq!(export_date_text(&c), "31/12/1969 23:59");
}

#[test]
fn one_comment_as_html() {
    let mut c = comment("1", Some("root"), "Bob <b>", "Hi & bye");
    c.author_is_uploader = Some(true);
    c.like_count = Some(3);
    c.timestamp = Some(0);
    let expected = expected_comment(
        "https://ui-avatars.com/api/?name=B&background=random&color=fff&size=40",
        "B",
        "@Bob <b>",
        "Bob &lt;b&gt;",
        "<span class=\"op-badge\">Creator</span>",
        "01/01/1970 00:00",
        "Hi &amp; bye",
        3,
    );
    assert_eq!(render_comment(&c), expected);
}

#[test]
fn comment_defaults_as_html() {
    let c = Comment {
        id: None,
        parent: None,
        author: None,
        author_id: None,
        author_thumbnail: Some("http://img/a.png".to_string()),
        author_is_uploader: Some(false),
        text: None,
        like_count: None,
        timestamp: None,
    };
    let expected = expected_comment("http://img/a.png", "A", "", "Anon", "", "", "", 0);
    assert_eq!(render_comment(&c), expected);
}

#[test]
fn nested_threads() {
    let root = comment("r1", Some("root"), "Ann", "top");
    let reply = comment("c1", Some("r1"), "Ben", "re");
    let orphan = comment("c2", Some("zz"), "Cy", "lost");
    let root2 = comment("r2", Some("root"), "Dee", "second");
    let cs = vec![reply.clone(), root.clone(), orphan, root2.clone()];
    let expected = format!(
        "<div class=\"comment-thread\">{}<div class=\"replies\">{}</div></div><div class=\"comment-thread\">{}</div>",
        render_comment(&root),
        render_comment(&reply),
        render_comment(&root2)
    );
    assert_eq!(build_nested_html(&cs), expected);
    assert_eq!(build_nested_html(&vec![]), "");
}

#[test]
fn initials_of_shown_comments() {
    let root = comment("r1", Some("root"), "Émile", "x");
    assert!(!initials_whole(&vec![root]));
    let hidden = comment("h", None, "Émile", "x");
    assert!(initials_whole(&vec![hidden]));
    let reply = comment("c", Some("r1"), "Émile", "x");
    assert!(initials_whole(&vec![reply.clone()]));
    let root = comment("r1", Some("root"), "Ann", "x");
    assert!(!initials_whole(&vec![root, reply]));
    let empty_author = comment("r", Some("root"), "", "x");
    assert!(initials_whole(&vec![empty_author]));
}

#[test]
fn comments_pages() {
    assert_eq!(video_comments_page("T", "id", "C", &vec![]), None);
    let root = comment("r1", Some("root"), "Ann", "top");
    let page = video_comments_page("T & U", "vid", "Ch\"an", &vec![root.clone()]).unwrap();
    assert!(page.starts_with("<!DOCTYPE html>\n<html lang=\"vi\">"));
    assert!(page.contains("<title>T &amp; U - Comments</title>"));
    assert!(page.contains("<a href=\"https://www.youtube.com/watch?v=vid\" target=\"_blank\"><img src=\"https://i.ytimg.com/vi/vid/hqdefault.jpg\" alt=\"\"></a>"));
    assert!(page.contains("<p class=\"meta\"><a href=\"https://www.youtube.com/@Ch&quot;an\" target=\"_blank\">Ch&quot;an</a></p>"));
    assert!(page.contains("<div class=\"comments-count\">1 comments</div>"));
    assert!(page.contains(&render_comment(&root)));
    assert!(page.ends_with("\n    </div>\n</body>\n</html>"));
    let reply_only = comment("c", Some("x"), "Ben", "re");
    let page = video_comments_page("T", "vid", "C", &vec![reply_only]).unwrap();
    assert!(page.contains("<p class=\"empty\">No comments.</p>"));
}

fn info(id: &str, title: &str, duration: Option<u64>) -> VideoInfo {
    VideoInfo {
        id: id.to_string(),
        title: title.to_string(),
        channel: "Ch <1>".to_string(),
        duration,
        thumbnail: format!("http://t/{}.jpg", id),
    }
}

fn expected_row(v: &VideoInfo, title: &str, channel: &str, dur: &str, badge: &str, link: &str) -> String {
    format!(
        r#"
        <div class="video-row">
            <img class="thumb" src="{}" alt="" loading="lazy">
            <div class="info">
                <h3><a href="https://www.youtube.com/watch?v={}" target="_blank">{}</a></h3>
                <p class="channel">{}</p>
                <div class="badges">
                    {}
                    {}
                </div>
            </div>
            <div class="actions">{}</div>
        </div>"#,
        v.thumbnail, v.id, title, channel, dur, badge, link
    )
}

#[test]
fn index_rows() {
    let v = info("a", "A & B", Some(125));
    let expected = expected_row(
        &v,
        "A &amp; B",
        "Ch &lt;1&gt;",
        "<span class=\"badge\">2:05</span>",
        "<span class=\"badge badge-green\">&#9654; Video</span>",
        "<a class=\"btn-comments\" href=\"A B/comments.html\">View comments</a>",
    );
    assert_eq!(index_row(&v, "a-b", "A B", true, true, false), expected);
    let v = info("b", "B", None);
    let expected = expected_row(
        &v,
        "B",
        "Ch &lt;1&gt;",
        "",
        "<span class=\"badge badge-orange\">&#9632; No video</span>",
        "<span class=\"no-comments-link\">No comments</span>",
    );
    assert_eq!(index_row(&v, "b", "B", false, false, true), expected);
    let v = info("c", "C", None);
    assert!(index_row(&v, "c", "C", false, true, true).contains("href=\"c-comments.html\""));
}

#[test]
fn index_page() {
    let videos = vec![info("a", "A & B", Some(125)), info("b", "Bee?", None)];
    let found = vec![(true, true), (false, false)];
    let page = index_html("My <List>", &videos, &found, 1, 7, false);
    assert!(page.starts_with("<!DOCTYPE html>\n<html lang=\"vi\">"));
    assert!(page.contains("<title>My &lt;List&gt;</title>"));
    assert!(page.contains("<h1>&#9654; My &lt;List&gt;</h1>"));
    assert!(page.contains("<span>2 videos</span>\n            <span>1 downloaded</span>\n            <span>7 comments</span>"));
    assert!(page.contains(&index_row(&videos[0], "a-b", "A & B", true, true, false)));
    assert!(page.contains(&index_row(&videos[1], "bee", "Bee", false, false, false)));
    assert!(page.ends_with("</div>\n</body>\n</html>"));
}

#[test]
fn exported_comment_defaults() {
    let c = Comment {
        id: None,
        parent: None,
        author: None,
        author_id: None,
        author_thumbnail: None,
        author_is_uploader: None,
        text: None,
        like_count: None,
        timestamp: None,
    };
    let e = comment_entry(&c);
    assert_eq!(e.author, "Anon");
    assert_eq!(e.text, "");
    assert_eq!(e.date, "01/01/1970 00:00");
    assert_eq!(e.likes, 0);
    assert!(!e.is_creator);
    assert_eq!(e.parent, "root");
}

#[test]
fn exported_video() {
    let mut c = comment("1", Some("root"), "Bob", "hi");
    c.like_count = Some(5);
    c.author_is_uploader = Some(true);
    let e = video_export(None, None, &vec![c.clone(), c]);
    assert_eq!(e.video, "Unknown");
    assert_eq!(e.video_id, "");
    assert_eq!(e.comments.len(), 2);
    assert_eq!(e.comments[1].likes, 5);
    assert!(e.comments[1].is_creator);
    let e = video_export(Some("T".to_string()), Some("id".to_string()), &vec![]);
    assert_eq!(e.video, "T");
    assert_eq!(e.video_id, "id");
}

fn entry(author: &str, text: &str) -> CommentEntry {
    CommentEntry {
        author: author.to_string(),
        text: text.to_string(),
        date: "01/01/1970 00:00".to_string(),
        likes: 2,
        is_creator: false,
        parent: "root".to_string(),
    }
}

fn exports() -> Vec<CommentExport> {
    vec![
        CommentExport {
            video: "Say \"hi\"".to_string(),
            video_id: "v1".to_string(),
            comments: vec![entry("A", "one"), entry("B \"b\"", "two, three")],
        },
        CommentExport { video: "Empty".to_string(), video_id: "v2".to_string(), comments: vec![] },
        CommentExport { video: "V3".to_string(), video_id: "v3".to_string(), comments: vec![entry("C", "")] },
    ]
}

#[test]
fn export_plans() {
    assert_eq!(plan_export(&vec![], "json"), Err("No comments found to export".to_string()));
    assert_eq!(plan_export(&vec![], "xml"), Err("No comments found to export".to_string()));
    assert_eq!(plan_export(&exports(), "json"), Ok((ExportKind::Json, 3)));
    assert_eq!(plan_export(&exports(), "csv"), Ok((ExportKind::Csv, 3)));
    assert_eq!(plan_export(&exports(), "xml"), Err("Unknown format: xml".to_string()));
    assert_eq!(plan_export(&exports(), "JSON"), Err("Unknown format: JSON".to_string()));
}

#[test]
fn export_names_and_messages() {
    assert_eq!(export_file_name(&ExportKind::Json), "comments.json");
    assert_eq!(export_file_name(&ExportKind::Csv), "comments.csv");
    assert_eq!(export_message(&ExportKind::Csv, 5), "comments.csv (5 comments)");
    assert_eq!(export_message(&ExportKind::Json, 0), "comments.json (0 comments)");
}

#[test]
fn csv_export() {
    let expected = [
        "Video,Video ID,Author,Comment,Date,Likes,Is Creator,Parent\n",
        "\"Say \"\"hi\"\"\",\"v1\",\"A\",\"one\",\"01/01/1970 00:00\",\"2\",\"false\",\"root\"\n",
        "\"Say \"\"hi\"\"\",\"v1\",\"B \"\"b\"\"\",\"two, three\",\"01/01/1970 00:00\",\"2\",\"false\",\"root\"\n",
        "\"V3\",\"v3\",\"C\",\"\",\"01/01/1970 00:00\",\"2\",\"false\",\"root\"\n",
    ]
    .concat();
    assert_eq!(comments_csv(&exports()), expected);
    assert_eq!(
        comments_csv(&vec![]),
        "Video,Video ID,Author,Comment,Date,Likes,Is Creator,Parent\n"
    );
}
