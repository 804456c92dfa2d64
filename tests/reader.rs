use http_asset_reader::fetch::{check_status, complete_read, finish_body, transport_failure};
use http_asset_reader::path::resolve_path;
use http_asset_reader::{
    ConfigError, HttpAssetReader, HttpAssetReaderPlugin, IoFailure, ReadError, Reply,
    REQUEST_TIMEOUT_SECS,
};

fn reader(escape: &str) -> HttpAssetReader {
    HttpAssetReader::new("http://localhost:8080/assets/", escape.to_string()).unwrap()
}

#[test]
fn path_without_escape_is_unchanged() {
    assert_eq!(resolve_path("textures/grass.png", "~~"), "textures/grass.png");
    assert_eq!(resolve_path("", "~~"), "");
    assert_eq!(resolve_path("a~b", "~~"), "a~b");
}

#[test]
fn every_escape_becomes_a_separator() {
    assert_eq!(resolve_path("models~~tree.glb", "~~"), "models/tree.glb");
    assert_eq!(resolve_path("a~~b~~c", "~~"), "a/b/c");
    assert_eq!(resolve_path("~~start", "~~"), "/start");
    assert_eq!(resolve_path("end~~", "~~"), "end/");
    assert_eq!(resolve_path("~~~~", "~~"), "//");
    assert_eq!(resolve_path("~~", "~~"), "/");
}

#[test]
fn overlapping_escapes_are_taken_left_to_right() {
    assert_eq!(resolve_path("aaa", "aa"), "/a");
    assert_eq!(resolve_path("aaaa", "aa"), "//");
}

#[test]
fn escape_with_multibyte_characters() {
    assert_eq!(resolve_path("é§ü§x", "§"), "é/ü/x");
}

#[test]
fn empty_escape_is_inserted_around_every_character() {
    assert_eq!(resolve_path("ab", ""), "/a/b/");
    assert_eq!(resolve_path("", ""), "/");
}

#[test]
fn reader_resolves_with_its_escape() {
    let r = reader("--SLASH--");
    assert_eq!(r.fake_slash(), "--SLASH--");
    assert_eq!(r.resolve("maps--SLASH--level1.ron"), "maps/level1.ron");
    assert_eq!(r.resolve("plain.png"), "plain.png");
}

#[test]
fn meta_path_appends_suffix() {
    let r = reader("~~");
    assert_eq!(r.resolve_meta("maps~~level1.ron"), "maps/level1.ron.meta");
    assert_eq!(r.resolve_meta(""), ".meta");
    assert_eq!(r.resolve_meta("x.png"), format!("{}.meta", r.resolve("x.png")));
}

#[test]
fn ok_answer_returns_body() {
    let body = vec![0u8, 1, 2, 255];
    let r = complete_read("a/b.png", Reply::Answered { status: 200, body: Ok(body.clone()) });
    assert_eq!(r.unwrap(), body);
}

#[test]
fn other_success_statuses_return_body() {
    let r = complete_read("a", Reply::Answered { status: 204, body: Ok(vec![]) });
    assert_eq!(r.unwrap(), Vec::<u8>::new());
    let r = complete_read("a", Reply::Answered { status: 299, body: Ok(vec![7]) });
    assert_eq!(r.unwrap(), vec![7]);
}

#[test]
fn not_found_answer_carries_path() {
    let r = complete_read("a/b.png", Reply::Answered { status: 404, body: Ok(vec![1]) });
    match r {
        Err(ReadError::NotFound(p)) => assert_eq!(p, "a/b.png"),
        other => panic!("unexpected {:?}", other),
    }
}

#[test]
fn server_error_is_io_failure() {
    let r = complete_read("a/b.png", Reply::Answered { status: 500, body: Ok(vec![]) });
    let e = r.unwrap_err();
    assert!(!e.is_not_found());
    assert!(matches!(e, ReadError::Io(IoFailure::BadStatus(500))));
}

#[test]
fn statuses_outside_success_range_fail() {
    assert!(matches!(
        check_status("p", 199),
        Err(ReadError::Io(IoFailure::BadStatus(199)))
    ));
    assert!(matches!(
        check_status("p", 300),
        Err(ReadError::Io(IoFailure::BadStatus(300)))
    ));
    assert!(check_status("p", 200).is_ok());
    assert!(check_status("p", 404).unwrap_err().is_not_found());
}

#[test]
fn transport_failure_is_io_failure_with_path() {
    let r = complete_read("x.png", Reply::Failed("connection refused".to_string()));
    match r {
        Err(ReadError::Io(IoFailure::Unreachable { path, detail })) => {
            assert_eq!(path, "x.png");
            assert_eq!(detail, "connection refused");
        }
        other => panic!("unexpected {:?}", other),
    }
    let e = transport_failure("y", "timed out".to_string());
    assert!(!e.is_not_found());
}

#[test]
fn unreadable_body_is_io_failure_with_path() {
    let r = complete_read("x.png", Reply::Answered { status: 200, body: Err("eof".to_string()) });
    match r {
        Err(ReadError::Io(IoFailure::BodyUnreadable { path, detail })) => {
            assert_eq!(path, "x.png");
            assert_eq!(detail, "eof");
        }
        other => panic!("unexpected {:?}", other),
    }
    assert_eq!(finish_body("x", Ok(vec![3, 4])).unwrap(), vec![3, 4]);
}

#[test]
fn directory_listing_is_always_empty() {
    let r = reader("~~");
    assert!(r.read_directory("").is_empty());
    assert!(r.read_directory("models").is_empty());
    assert!(r.read_directory("a~~b").is_empty());
}

#[test]
fn nothing_is_a_directory() {
    let r = reader("~~");
    assert!(!r.is_directory(""));
    assert!(!r.is_directory("models"));
    assert!(!r.is_directory("models/"));
}

#[test]
fn invalid_base_url_is_refused() {
    assert!(matches!(
        HttpAssetReader::new("not a url", "~~".to_string()),
        Err(ConfigError::InvalidBaseUrl(_))
    ));
    assert!(HttpAssetReader::new("", "~~".to_string()).is_err());
    assert!(HttpAssetReader::new("/relative/path", "~~".to_string()).is_err());
    assert!(HttpAssetReader::new("http://[::1", "~~".to_string()).is_err());
}

#[test]
fn valid_base_url_is_kept() {
    let r = HttpAssetReader::new("https://example.com/assets/", "~~".to_string()).unwrap();
    assert_eq!(r.base_url().as_str(), "https://example.com/assets/");
    assert_eq!(REQUEST_TIMEOUT_SECS, 5);
}

#[test]
fn plugin_builds_its_reader() {
    let plugin = HttpAssetReaderPlugin {
        id: "remote".to_string(),
        base_url: "http://localhost:8080".to_string(),
        fake_slash: "%%".to_string(),
    };
    let r = plugin.make_reader().unwrap();
    assert_eq!(r.resolve("a%%b"), "a/b");
    let bad = HttpAssetReaderPlugin {
        id: "remote".to_string(),
        base_url: "localhost".to_string(),
        fake_slash: "%%".to_string(),
    };
    assert!(bad.make_reader().is_err());
}
