use im_core::error::AppError;
use im_core::media::{
    aggregate_stats, cached_result, check_actual_size, check_declared_size, count_successes,
    download_url, get_cache_path, guess_mime, mime_or_default, parse_mxc_uri, plan_download,
    preload_options, sanitize_component, CacheEntryMeta, DownloadAction, PRELOAD_MAX_SIZE,
};

#[test]
fn parse_splits_at_the_first_separator_only() {
    let (server, media) = parse_mxc_uri("mxc://serverA/abc/def").expect("valid locator");
    assert_eq!(server, "serverA");
    assert_eq!(media, "abc/def");
}

#[test]
fn parse_rejects_missing_prefix() {
    match parse_mxc_uri("not-a-uri") {
        Err(AppError::InvalidUri(_)) => {}
        other => panic!("expected InvalidUri, got {:?}", other),
    }
}

#[test]
fn parse_rejects_missing_media_id() {
    match parse_mxc_uri("mxc://onlyauthority") {
        Err(AppError::InvalidUri(_)) => {}
        other => panic!("expected InvalidUri, got {:?}", other),
    }
}

#[test]
fn parse_rejects_empty_segments() {
    assert!(matches!(parse_mxc_uri("mxc://a/"), Err(AppError::InvalidUri(_))));
    assert!(matches!(parse_mxc_uri("mxc:///b"), Err(AppError::InvalidUri(_))));
    assert!(matches!(parse_mxc_uri("mxc://"), Err(AppError::InvalidUri(_))));
}

#[test]
fn cache_path_contains_no_hostile_characters() {
    let path = get_cache_path("server:1", "id/2");
    assert_eq!(path, "server_1_id_2");
    assert!(!path.contains('/'));
    assert!(!path.contains(':'));
    assert!(!path.contains('\\'));
}

#[test]
fn sanitize_replaces_each_hostile_character() {
    assert_eq!(sanitize_component("a/b:c\\d"), "a_b_c_d");
    assert_eq!(sanitize_component("plain"), "plain");
    assert_eq!(sanitize_component(""), "");
}

#[test]
fn cached_file_short_circuits_unless_forced() {
    assert_eq!(plan_download(false, true), DownloadAction::ServeCached);
    assert_eq!(plan_download(true, true), DownloadAction::Fetch);
    assert_eq!(plan_download(false, false), DownloadAction::Fetch);
    assert_eq!(plan_download(true, false), DownloadAction::Fetch);
}

#[test]
fn declared_oversize_fails_before_any_download() {
    match check_declared_size(Some(100), Some(50)) {
        Err(AppError::FileTooLarge(msg)) => {
            assert_eq!(msg, "File size 100 exceeds maximum 50");
        }
        other => panic!("expected FileTooLarge, got {:?}", other),
    }
    assert!(check_declared_size(Some(50), Some(50)).is_ok());
    assert!(check_declared_size(None, Some(50)).is_ok());
    assert!(check_declared_size(Some(100), None).is_ok());
}

#[test]
fn actual_oversize_fails_after_download() {
    match check_actual_size(75, Some(50)) {
        Err(AppError::FileTooLarge(msg)) => {
            assert_eq!(msg, "File size 75 exceeds maximum 50");
        }
        other => panic!("expected FileTooLarge, got {:?}", other),
    }
    assert!(check_actual_size(50, Some(50)).is_ok());
    assert!(check_actual_size(75, None).is_ok());
}

#[test]
fn download_url_trims_trailing_separators() {
    assert_eq!(
        download_url("https://hs.example///", "srv", "media/1"),
        "https://hs.example/_matrix/media/r0/download/srv/media/1"
    );
    assert_eq!(
        download_url("https://hs.example", "srv", "m"),
        "https://hs.example/_matrix/media/r0/download/srv/m"
    );
}

#[test]
fn empty_scan_yields_zero_stats() {
    let stats = aggregate_stats(&vec![]);
    assert_eq!(stats.count, 0);
    assert_eq!(stats.total_size, 0);
    assert_eq!(stats.oldest_entry, None);
    assert_eq!(stats.newest_entry, None);
}

#[test]
fn scan_counts_only_regular_files() {
    let entries = vec![
        CacheEntryMeta { is_file: true, size: 10, modified: Some(100) },
        CacheEntryMeta { is_file: true, size: 5, modified: Some(50) },
        CacheEntryMeta { is_file: false, size: 999, modified: Some(1) },
        CacheEntryMeta { is_file: true, size: 3, modified: None },
    ];
    let stats = aggregate_stats(&entries);
    assert_eq!(stats.count, 3);
    assert_eq!(stats.total_size, 18);
    assert_eq!(stats.oldest_entry, Some(50));
    assert_eq!(stats.newest_entry, Some(100));
}

#[test]
fn scan_timestamp_sentinels() {
    let entries = vec![CacheEntryMeta { is_file: true, size: 1, modified: Some(0) }];
    let stats = aggregate_stats(&entries);
    assert_eq!(stats.oldest_entry, Some(0));
    assert_eq!(stats.newest_entry, None);
}

#[test]
fn preload_counts_two_of_three_when_one_fails() {
    let outcomes = vec![true, false, true];
    assert_eq!(count_successes(&outcomes), 2);
    assert_eq!(count_successes(&vec![]), 0);
}

#[test]
fn preload_uses_fixed_generous_ceiling() {
    let options = preload_options("mxc://s/m".to_string());
    assert_eq!(options.mxc_uri, "mxc://s/m");
    assert!(!options.force);
    assert_eq!(options.max_size, Some(PRELOAD_MAX_SIZE));
    assert_eq!(PRELOAD_MAX_SIZE, 50 * 1024 * 1024);
}

#[test]
fn mime_is_inferred_from_the_extension() {
    assert_eq!(guess_mime("picture.png"), "image/png");
    assert_eq!(guess_mime("CLIP.MP4"), "video/mp4");
    assert_eq!(guess_mime("no_extension"), "application/octet-stream");
}

#[test]
fn cached_result_carries_the_inferred_mime() {
    let r = cached_result("/cache/srv_pic.png".to_string(), 42);
    assert_eq!(r.local_path, "/cache/srv_pic.png");
    assert_eq!(r.size, 42);
    assert_eq!(r.mime_type, "image/png");
}

#[test]
fn response_mime_falls_back_to_octet_stream() {
    assert_eq!(mime_or_default(Some("image/jpeg".to_string())), "image/jpeg");
    assert_eq!(mime_or_default(None), "application/octet-stream");
}
