//! Fixed text of the generated HTML pages, split where values are inserted.

use vstd::prelude::*;

verus! {

pub const COMMENT_0: &'static str = "<div class=\"comment\">\n            <img class=\"avatar\" src=\"";
pub const COMMENT_1: &'static str = "\" alt=\"\" onerror=\"this.src='https://ui-avatars.com/api/?name=";
pub const COMMENT_2: &'static str = "&background=random&color=fff&size=40'\">\n            <div class=\"comment-body\">\n                <div class=\"comment-header\">\n                    <a href=\"https://www.youtube.com/@";
pub const COMMENT_3: &'static str = "\" target=\"_blank\" class=\"author\">";
pub const COMMENT_4: &'static str = "</a>\n                    ";
pub const COMMENT_5: &'static str = "\n                    <span class=\"date\">";
pub const COMMENT_6: &'static str = "</span>\n                </div>\n                <p class=\"comment-text\">";
pub const COMMENT_7: &'static str = "</p>\n                <div class=\"comment-meta\">\n                    <span class=\"likes\">&#9650; ";
pub const COMMENT_8: &'static str = "</span>\n                </div>\n            </div>\n        </div>";
pub const PAGE_0: &'static str = "<!DOCTYPE html>\n<html lang=\"vi\">\n<head>\n    <meta charset=\"UTF-8\">\n    <meta name=\"viewport\" content=\"width=device-width, initial-scale=1.0\">\n    <title>";
pub const PAGE_1: &'static str = " - Comments</title>\n    <style>\n        * { margin: 0; padding: 0; box-sizing: border-box; }\n        body { font-family: -apple-system, BlinkMacSystemFont, 'Segoe UI', Roboto, sans-serif; background: #0f0f0f; color: #f1f1f1; }\n        .video-banner { display: flex; gap: 16px; padding: 20px; background: #1a1a1a; border-bottom: 1px solid #2a2a2a; align-items: flex-start; }\n        .video-banner img { width: 160px; height: 90px; object-fit: cover; border-radius: 8px; }\n        .video-banner .info h1 { font-size: 18px; margin-bottom: 6px; }\n        .video-banner .info h1 a { color: #f1f1f1; text-decoration: none; }\n        .video-banner .info h1 a:hover { color: #3ea6ff; }\n        .video-banner .info .meta { color: #aaa; font-size: 13px; }\n        .video-banner .info .meta a { color: #aaa; text-decoration: none; }\n        .video-banner .info .meta a:hover { color: #3ea6ff; }\n        .comments-count { padding: 16px 20px; font-size: 16px; font-weight: 600; border-bottom: 1px solid #2a2a2a; }\n        .comments-container { padding: 0 20px 20px; }\n        .comment-thread { border-bottom: 1px solid #222; padding: 12px 0; }\n        .comment-thread:last-child { border-bottom: none; }\n        .comment { display: flex; gap: 12px; }\n        .replies { margin-left: 52px; padding-left: 12px; border-left: 2px solid #333; margin-top: 8px; display: flex; flex-direction: column; gap: 8px; }\n        .replies .comment { padding: 4px 0; }\n        .replies .avatar { width: 28px; height: 28px; }\n        .avatar { width: 40px; height: 40px; border-radius: 50%; flex-shrink: 0; }\n        .comment-body { flex: 1; min-width: 0; }\n        .comment-header { display: flex; gap: 10px; align-items: baseline; margin-bottom: 4px; }\n        .author { color: #f1f1f1; font-weight: 600; font-size: 13px; text-decoration: none; }\n        .author:hover { color: #3ea6ff; }\n        .op-badge { background: #3ea6ff; color: #0f0f0f; font-size: 10px; font-weight: 700; padding: 1px 6px; border-radius: 4px; }\n        .date { color: #717171; font-size: 12px; }\n        .comment-text { font-size: 14px; line-height: 1.5; white-space: pre-wrap; word-wrap: break-word; }\n        .comment-meta { margin-top: 4px; }\n        .likes { color: #717171; font-size: 12px; }\n        .empty { color: #717171; text-align: center; padding: 40px 20px; font-size: 14px; }\n    </style>\n</head>\n<body>\n    <div class=\"video-banner\">\n        <a href=\"";
pub const PAGE_2: &'static str = "\" target=\"_blank\"><img src=\"";
pub const PAGE_3: &'static str = "\" alt=\"\"></a>\n        <div class=\"info\">\n            <h1><a href=\"";
pub const PAGE_4: &'static str = "\" target=\"_blank\">";
pub const PAGE_5: &'static str = "</a></h1>\n            <p class=\"meta\"><a href=\"https://www.youtube.com/@";
pub const PAGE_6: &'static str = "\" target=\"_blank\">";
pub const PAGE_7: &'static str = "</a></p>\n        </div>\n    </div>\n    <div class=\"comments-count\">";
pub const PAGE_8: &'static str = " comments</div>\n    <div class=\"comments-container\">\n        ";
pub const PAGE_9: &'static str = "\n    </div>\n</body>\n</html>";
pub const ROW_0: &'static str = "\n        <div class=\"video-row\">\n            <img class=\"thumb\" src=\"";
pub const ROW_1: &'static str = "\" alt=\"\" loading=\"lazy\">\n            <div class=\"info\">\n                <h3><a href=\"https://www.youtube.com/watch?v=";
pub const ROW_2: &'static str = "\" target=\"_blank\">";
pub const ROW_3: &'static str = "</a></h3>\n                <p class=\"channel\">";
pub const ROW_4: &'static str = "</p>\n                <div class=\"badges\">\n                    ";
pub const ROW_5: &'static str = "\n                    ";
pub const ROW_6: &'static str = "\n                </div>\n            </div>\n            <div class=\"actions\">";
pub const ROW_7: &'static str = "</div>\n        </div>";
pub const INDEX_0: &'static str = "<!DOCTYPE html>\n<html lang=\"vi\">\n<head>\n    <meta charset=\"UTF-8\">\n    <meta name=\"viewport\" content=\"width=device-width, initial-scale=1.0\">\n    <title>";
pub const INDEX_1: &'static str = "</title>\n    <style>\n        * { margin: 0; padding: 0; box-sizing: border-box; }\n        body { font-family: -apple-system, BlinkMacSystemFont, 'Segoe UI', Roboto, sans-serif; background: #0f0f0f; color: #f1f1f1; }\n        .header { text-align: center; padding: 30px 20px; background: linear-gradient(135deg, #ff0000 0%, #cc0000 100%); }\n        .header h1 { font-size: 26px; margin-bottom: 8px; }\n        .header .stats { color: #ffcccc; font-size: 14px; }\n        .stats span { margin: 0 12px; }\n        .list { max-width: 900px; margin: 0 auto; padding: 20px; }\n        .video-row { display: flex; align-items: center; gap: 16px; padding: 16px; background: #1a1a1a; border-radius: 10px; margin-bottom: 10px; border: 1px solid #2a2a2a; }\n        .thumb { width: 120px; height: 68px; object-fit: cover; border-radius: 6px; flex-shrink: 0; }\n        .info { flex: 1; min-width: 0; }\n        .info h3 { font-size: 14px; margin-bottom: 4px; }\n        .info h3 a { color: #f1f1f1; text-decoration: none; }\n        .info h3 a:hover { color: #3ea6ff; }\n        .channel { color: #aaa; font-size: 12px; margin-bottom: 6px; }\n        .badges { display: flex; gap: 6px; flex-wrap: wrap; }\n        .badge { background: #2a2a2a; padding: 2px 8px; border-radius: 10px; font-size: 11px; color: #aaa; }\n        .badge-blue { color: #3ea6ff; }\n        .badge-green { color: #4caf50; }\n        .badge-orange { color: #ff9800; }\n        .actions { flex-shrink: 0; }\n        .btn-comments { display: inline-block; padding: 8px 16px; background: #3ea6ff; color: #0f0f0f; border-radius: 6px; text-decoration: none; font-size: 12px; font-weight: 600; }\n        .btn-comments:hover { background: #65b8ff; }\n        .no-comments-link { color: #555; font-size: 12px; }\n    </style>\n</head>\n<body>\n    <div class=\"header\">\n        <h1>&#9654; ";
pub const INDEX_2: &'static str = "</h1>\n        <div class=\"stats\">\n            <span>";
pub const INDEX_3: &'static str = " videos</span>\n            <span>";
pub const INDEX_4: &'static str = " downloaded</span>\n            <span>";
pub const INDEX_5: &'static str = " comments</span>\n        </div>\n    </div>\n    <div class=\"list\">";
pub const INDEX_6: &'static str = "</div>\n</body>\n</html>";

/// The "Creator" badge shown beside comments of the uploader.
pub const OP_BADGE: &'static str = "<span class=\"op-badge\">Creator</span>";

/// Start of the fallback avatar URL, before the author initial.
pub const AVATAR_0: &'static str = "https://ui-avatars.com/api/?name=";

/// End of the fallback avatar URL, after the author initial.
pub const AVATAR_1: &'static str = "&background=random&color=fff&size=40";

} // verus!
