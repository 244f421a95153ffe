use voicefox::download::engine::{
    candidate_download_urls, parse_content_range_total, plan_bounded_ranges, plan_ranges,
    rewrite_netease_host, staging_path, verify_size, DownloadConfig, DownloadError,
    DownloadOptions, DownloadProgress, missing_declared_size_error, multipart_ready,
    probe_from_range_get, probed_total, transfer_route, TransferRoute,
};

#[test]
fn ranges_cover_the_whole_file_without_gaps() {
    let total = 10 * 1024 * 1024 + 7;
    let ranges = plan_ranges(total, 4);

    assert_eq!(ranges.len(), 4);
    assert_eq!(ranges.first().unwrap().0, 0);
    assert_eq!(ranges.last().unwrap().1, total - 1);
    for pair in ranges.windows(2) {
        assert_eq!(pair[0].1 + 1, pair[1].0, "分片之间不允许有空隙");
    }
    let covered: u64 = ranges.iter().map(|(start, end)| end - start + 1).sum();
    assert_eq!(covered, total);
}

#[test]
fn tiny_files_stay_single_part() {
    assert_eq!(plan_ranges(1024, 8), vec![(0, 1023)]);
}

#[test]
fn bounded_ranges_never_exceed_the_configured_cap() {
    let total = 5 * 1024 * 1024 + 3;
    let cap = 1024 * 1024;
    let ranges = plan_bounded_ranges(total, 4, cap);

    assert!(ranges.iter().all(|(start, end)| end - start < cap));
    assert_eq!(ranges.first().unwrap().0, 0);
    assert_eq!(ranges.last().unwrap().1, total - 1);
    for pair in ranges.windows(2) {
        assert_eq!(pair[0].1 + 1, pair[1].0, "分片之间不允许有空隙");
    }
    let covered: u64 = ranges.iter().map(|(start, end)| end - start + 1).sum();
    assert_eq!(covered, total);
}

#[test]
fn bounded_ranges_use_the_cap_when_workers_cannot_cover_the_file() {
    let ranges = plan_bounded_ranges(1000, 4, 100);
    assert_eq!(ranges.len(), 10);
    assert_eq!(ranges.first().unwrap(), &(0, 99));
    assert_eq!(ranges.last().unwrap(), &(900, 999));
}

#[test]
fn bounded_ranges_are_empty_without_a_cap_or_size() {
    assert!(plan_bounded_ranges(0, 4, 1024).is_empty());
    assert!(plan_bounded_ranges(1024, 4, 0).is_empty());
}

#[test]
fn size_verification_rejects_truncated_downloads() {
    assert!(verify_size(2048, 2048, false).is_ok());
    let error = verify_size(2048, 1024, false).unwrap_err();
    assert!(matches!(error, DownloadError::Integrity(_)));
}

#[test]
fn advisory_size_allows_longer_but_not_shorter_files() {
    assert!(verify_size(2048, 2050, true).is_ok());
    assert!(verify_size(2048, 4096, true).is_ok());
    assert!(verify_size(2048, 1000, true).is_err());
}

#[test]
fn content_range_parser_reads_total_length() {
    assert_eq!(parse_content_range_total("bytes 0-0/12345"), Some(12345));
    assert_eq!(parse_content_range_total("bytes */12345"), Some(12345));
    assert_eq!(parse_content_range_total("bytes 0-0/*"), None);
}

#[test]
fn staging_file_stays_next_to_the_destination() {
    let dest = "/music/voicefox/周杰伦 - 晴天.mp3";
    assert_eq!(staging_path(dest), "/music/voicefox/.周杰伦 - 晴天.mp3.part");
}

#[test]
fn netease_nodes_are_rewritten_to_the_m7_family() {
    assert_eq!(
        rewrite_netease_host("http://m8.music.126.net/a/b.mp3?id=1"),
        "http://m7.music.126.net/a/b.mp3?id=1"
    );
    assert_eq!(
        rewrite_netease_host("https://m801.music.126.net/x.flac"),
        "https://m701.music.126.net/x.flac"
    );
    assert_eq!(
        rewrite_netease_host("https://m804.music.126.net/x.flac"),
        "https://m701.music.126.net/x.flac"
    );
    assert_eq!(
        rewrite_netease_host("https://cdn.example.com/m8.song.flac"),
        "https://cdn.example.com/m8.song.flac"
    );
}

#[test]
fn candidates_put_the_original_url_first() {
    assert_eq!(
        candidate_download_urls("http://m8.music.126.net/a.mp3", &vec![]),
        vec![
            "http://m8.music.126.net/a.mp3".to_string(),
            "http://m7.music.126.net/a.mp3".to_string()
        ]
    );
    assert_eq!(
        candidate_download_urls("https://cdn.example.com/a.flac", &vec![]),
        vec!["https://cdn.example.com/a.flac".to_string()]
    );
    assert!(candidate_download_urls("   ", &vec![]).is_empty());
}

#[test]
fn netease_rewrites_come_after_every_given_url() {
    assert_eq!(
        candidate_download_urls(
            "http://m8.music.126.net/a.mp3",
            &vec!["https://cdn.example.com/a.flac".to_string()]
        ),
        vec![
            "http://m8.music.126.net/a.mp3".to_string(),
            "https://cdn.example.com/a.flac".to_string(),
            "http://m7.music.126.net/a.mp3".to_string(),
        ]
    );
    assert_eq!(
        candidate_download_urls(
            " http://m8.music.126.net/a.mp3 ",
            &vec!["http://m7.music.126.net/a.mp3".to_string(), "http://m804.music.126.net/c.mp3".to_string()]
        ),
        vec![
            "http://m8.music.126.net/a.mp3".to_string(),
            "http://m7.music.126.net/a.mp3".to_string(),
            "http://m804.music.126.net/c.mp3".to_string(),
            "http://m701.music.126.net/c.mp3".to_string(),
        ]
    );
}

#[test]
fn platform_candidates_are_kept_in_order_and_deduplicated() {
    let extra = vec![
        "http://cdn2.example.com/a.flac".to_string(),
        "http://cdn1.example.com/a.flac".to_string(),
        "   ".to_string(),
        "http://m801.music.126.net/b.mp3".to_string(),
    ];
    assert_eq!(
        candidate_download_urls("http://cdn1.example.com/a.flac", &extra),
        vec![
            "http://cdn1.example.com/a.flac".to_string(),
            "http://cdn2.example.com/a.flac".to_string(),
            "http://m801.music.126.net/b.mp3".to_string(),
            "http://m701.music.126.net/b.mp3".to_string(),
        ]
    );
}

#[test]
fn integrity_errors_are_not_retried() {
    assert!(!DownloadError::Integrity("bad".to_string()).is_retryable());
    assert!(!DownloadError::Cancelled.is_retryable());
    assert!(DownloadError::Network("timeout".to_string()).is_retryable());
    assert!(DownloadError::Http { status: 503 }.is_retryable());
    assert!(!DownloadError::Http { status: 404 }.is_retryable());
}

#[test]
fn progress_counters_wrap_and_saturate() {
    let mut progress = DownloadProgress::new();
    assert_eq!(progress.snapshot().total, 0);
    progress.set_total(200);
    progress.add(50);
    assert_eq!(progress.snapshot().downloaded, 50);
    progress.sub(200);
    assert_eq!(progress.snapshot().downloaded, 0);
    progress.cancel();
    assert!(progress.is_cancelled());
}

#[test]
fn staging_path_without_a_file_name() {
    assert_eq!(staging_path("/"), "/.download.part");
    assert_eq!(staging_path("a.mp3"), ".a.mp3.part");
    assert_eq!(staging_path("dir/a.mp3"), "dir/.a.mp3.part");
}

#[test]
fn download_options_are_clamped_from_config() {
    let config = DownloadConfig {
        concurrency: 99,
        multipart: true,
        multipart_min_size_bytes: 2 * 1024 * 1024,
        max_retries: 42,
        verify_size: true,
    };
    let options = DownloadOptions::from_config(&config);
    assert_eq!(options.concurrency, 16);
    assert_eq!(options.max_retries, 10);
}

#[test]
fn capped_sources_need_a_declared_size() {
    assert_eq!(transfer_route(1024, None), TransferRoute::MissingDeclaredSize);
    assert_eq!(transfer_route(1024, Some(0)), TransferRoute::MissingDeclaredSize);
    assert_eq!(
        missing_declared_size_error(),
        DownloadError::Other("严格分片下载需要音源声明的文件大小".to_string())
    );
}

#[test]
fn capped_sources_go_straight_to_bounded_ranges() {
    assert_eq!(transfer_route(1024, Some(5000)), TransferRoute::Chunked { total: 5000 });
    assert_eq!(transfer_route(0, Some(5000)), TransferRoute::Probe);
    assert!(plan_bounded_ranges(5000, 4, 1024).iter().all(|(start, end)| end - start + 1 <= 1024));
}

#[test]
fn an_ignored_range_request_disables_splitting() {
    let options = DownloadOptions::default();
    let probe = probe_from_range_get(Some(200), None, Some(8 * 1024 * 1024));
    assert!(!probe.ranges);
    let total = probed_total(&probe, None);
    assert_eq!(total, Some(8 * 1024 * 1024));
    assert!(!multipart_ready(&options, &probe, total));
    let probe = probe_from_range_get(Some(206), Some(8 * 1024 * 1024), Some(1));
    assert!(multipart_ready(&options, &probe, probed_total(&probe, None)));
}

#[test]
fn a_cancelled_transfer_stops() {
    let mut progress = DownloadProgress::new();
    assert!(progress.check_cancelled().is_ok());
    progress.cancel();
    assert_eq!(progress.check_cancelled(), Err(DownloadError::Cancelled));
}

#[test]
fn rewriting_twice_changes_nothing_more() {
    for url in ["http://m801.music.126.net/a.mp3", "m8.music.126.net/b", "https://m704.x.net", "https://cdn.example.com/a"] {
        let once = rewrite_netease_host(url);
        assert_eq!(rewrite_netease_host(&once), once);
    }
}
