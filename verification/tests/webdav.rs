use voicefox::download::webdav::{
    content_type_for, is_configured, mkcol_accepted, mkcol_status_error, mkcol_targets,
    parse_base_url, remote_relative_path, sanitize_filename, upload_failure_message,
    upload_target, WebdavConfig,
};

fn config(url: &str, dir: &str, enabled: bool) -> WebdavConfig {
    WebdavConfig {
        enabled,
        url: url.to_string(),
        username: "user".to_string(),
        password: "pass".to_string(),
        dir: dir.to_string(),
    }
}

#[test]
fn configuration_requires_both_switch_and_url() {
    assert!(is_configured(&config("https://dav.example.com/dav", "", true)));
    assert!(!is_configured(&config("https://dav.example.com/dav", "", false)));
    assert!(!is_configured(&config("   ", "", true)));
}

#[test]
fn base_url_rejects_unsupported_schemes() {
    assert_eq!(parse_base_url("https://dav.example.com/dav/").unwrap(), "https://dav.example.com/dav");
    assert!(parse_base_url("ftp://dav.example.com").is_err());
    assert!(parse_base_url("dav.example.com/dav").is_err());
    assert!(parse_base_url("https:///dav").is_err());
}

#[test]
fn base_url_errors_say_what_is_wrong() {
    assert_eq!(parse_base_url("  ").unwrap_err(), "WebDAV 地址为空");
    assert_eq!(parse_base_url("ftp://x").unwrap_err(), "WebDAV 地址必须以 http:// 或 https:// 开头");
    assert_eq!(parse_base_url("http:///x").unwrap_err(), "WebDAV 地址缺少主机名");
}

#[test]
fn remote_path_keeps_template_subdirectories() {
    assert_eq!(
        remote_relative_path("voicefox", "周杰伦/叶惠美/晴天.flac").unwrap(),
        "voicefox/周杰伦/叶惠美/晴天.flac"
    );
    assert_eq!(remote_relative_path("", "晴天.flac").unwrap(), "晴天.flac");
    assert_eq!(remote_relative_path("/voicefox/", "晴天.flac").unwrap(), "voicefox/晴天.flac");
}

#[test]
fn remote_path_drops_traversal_segments() {
    let path = remote_relative_path("voicefox", "../../etc/passwd").unwrap();
    assert_eq!(path, "voicefox/etc/passwd");
    assert!(remote_relative_path("", "../..").is_err());
    assert_eq!(remote_relative_path("", "a\\b.mp3").unwrap(), "a/b.mp3");
}

#[test]
fn content_type_matches_the_audio_extension() {
    assert_eq!(content_type_for("晴天.flac"), "audio/flac");
    assert_eq!(content_type_for("晴天.MP3"), "audio/mpeg");
    assert_eq!(content_type_for("晴天.m4a"), "audio/mp4");
    assert_eq!(content_type_for("无扩展名"), "audio/mpeg");
}

#[test]
fn directories_are_created_outermost_first() {
    let targets = mkcol_targets("https://dav.example.com/dav/", "voicefox/周杰伦/晴天.flac");
    assert_eq!(
        targets,
        vec![
            ("voicefox".to_string(), "https://dav.example.com/dav/voicefox/".to_string()),
            ("周杰伦".to_string(), "https://dav.example.com/dav/voicefox/周杰伦/".to_string()),
        ]
    );
    assert!(mkcol_targets("https://x", "a.flac").is_empty());
    assert!(mkcol_accepted(405));
    assert!(!mkcol_accepted(403));
    assert_eq!(mkcol_status_error("a", 201), None);
    assert_eq!(mkcol_status_error("a", 403).as_deref(), Some("创建 WebDAV 目录 a 失败: HTTP 403"));
    assert_eq!(upload_target("https://x/dav//", "a/b.flac"), "https://x/dav/a/b.flac");
    assert_eq!(upload_failure_message("404 Not Found", "  "), "上传到 WebDAV 失败: 404 Not Found");
    assert_eq!(upload_failure_message("500", " boom "), "上传到 WebDAV 失败: 500: boom");
    assert_eq!(sanitize_filename(" a:b?c "), "a_b_c");
}

#[test]
fn a_checked_address_checks_to_itself() {
    let once = parse_base_url("  https://dav.example.com/dav///  ").unwrap();
    assert_eq!(once, "https://dav.example.com/dav");
    assert_eq!(parse_base_url(&once).unwrap(), once);
    let spaced = parse_base_url("https://dav.example.com/dav /").unwrap();
    assert_eq!(spaced, "https://dav.example.com/dav ");
    assert_eq!(parse_base_url(&spaced).unwrap(), "https://dav.example.com/dav");
}
