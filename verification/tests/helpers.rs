use filite::config::{Config, DatabaseConfig, DatabaseMode, PasswordConfig, RuntimeConfig};
use filite::handlers::{id_from_b36, PutFile};
use filite::queries::{SelectFilters, SelectQuery};
use filite::reject::FiliteRejection;
use filite::routes::{escape_html, id_to_str, parse_id};
use filite::setup::{get_config_path, get_password_path, hash, password_matches, HighlightConfig};
use filite::util::DefaultExt;

#[test]
fn base36_parsing_matches_known_values() {
    assert_eq!(id_from_b36("0"), Some(0));
    assert_eq!(id_from_b36("z"), Some(35));
    assert_eq!(id_from_b36("10"), Some(36));
    assert_eq!(id_from_b36("ZZ"), Some(1295));
    assert_eq!(id_from_b36("zz"), Some(1295));
    assert_eq!(id_from_b36("abc"), Some(13368));
    assert_eq!(id_from_b36("-1"), Some(-1));
    assert_eq!(id_from_b36("+7"), Some(7));
    assert_eq!(id_from_b36("zik0zj"), Some(i32::MAX));
    assert_eq!(id_from_b36("-zik0zk"), Some(i32::MIN));
}

#[test]
fn base36_parsing_rejects_garbage_and_overflow() {
    assert_eq!(id_from_b36(""), None);
    assert_eq!(id_from_b36("+"), None);
    assert_eq!(id_from_b36("-"), None);
    assert_eq!(id_from_b36("a b"), None);
    assert_eq!(id_from_b36("a_b"), None);
    assert_eq!(id_from_b36("zik0zk"), None);
    assert_eq!(id_from_b36("zzzzzzzz"), None);
    assert_eq!(id_from_b36("é"), None);
}

#[test]
fn base36_writing_matches_known_values() {
    assert_eq!(id_to_str(0), "0");
    assert_eq!(id_to_str(35), "z");
    assert_eq!(id_to_str(36), "10");
    assert_eq!(id_to_str(13368), "abc");
    assert_eq!(id_to_str(-1), "-1");
    assert_eq!(id_to_str(i32::MAX), "zik0zj");
    assert_eq!(id_to_str(i32::MIN), "-zik0zk");
}

#[test]
fn base36_round_trips() {
    for n in [0, 1, -1, 35, 36, 1295, 13368, 99999, -99999, i32::MAX, i32::MIN] {
        assert_eq!(id_from_b36(id_to_str(n).as_str()), Some(n));
    }
}

#[test]
fn parse_id_ignores_a_file_extension() {
    assert_eq!(parse_id("abc.txt"), Ok(13368));
    assert_eq!(parse_id("abc"), Ok(13368));
    assert_eq!(parse_id("z.tar.gz"), Ok(35));
    match parse_id(".txt") {
        Err(FiliteRejection::BadRequest(m)) => assert_eq!(m, "Invalid ID"),
        _ => panic!("an empty prefix must be rejected"),
    }
    assert!(parse_id("no spaces").is_err());
}

#[test]
fn html_escaping_replaces_the_three_characters() {
    assert_eq!(escape_html("a<b&c>d"), "a&lt;b&amp;c&gt;d");
    assert_eq!(escape_html("plain text"), "plain text");
    assert_eq!(escape_html(""), "");
    assert_eq!(escape_html("&&"), "&amp;&amp;");
    assert_eq!(escape_html("<script>"), "&lt;script&gt;");
}

#[test]
fn log_level_comparison_ignores_ascii_case() {
    assert!(Config::log_level_is_default("info"));
    assert!(Config::log_level_is_default("INFO"));
    assert!(Config::log_level_is_default("Info"));
    assert!(!Config::log_level_is_default("warn"));
    assert!(!Config::log_level_is_default(""));
    assert_eq!(Config::default_log_level(), "info");
}

#[test]
fn configuration_defaults() {
    let config = Config::default();
    assert_eq!(config.port, 80);
    assert!(config.tls.is_none());
    assert_eq!(config.log_level, "info");
    assert_eq!(config.database.path, "filite");
    assert_eq!(config.database.cache_capacity, 1024 * 1024 * 1024);
    assert!(matches!(config.database.mode, DatabaseMode::Space));

    assert_eq!(DatabaseConfig::default_cache_capacity(), 1073741824);
    assert!(DatabaseConfig::cache_capacity_is_default(&1073741824));
    assert!(!DatabaseConfig::cache_capacity_is_default(&1));
}

#[test]
fn default_markers_follow_the_values() {
    assert!(RuntimeConfig::default().is_default());
    assert!(!RuntimeConfig { core_threads: Some(2), max_threads: None }.is_default());
    assert!(PasswordConfig::default().is_default());
    let mut params = PasswordConfig::default();
    params.secret = Some("s".to_owned());
    assert!(!params.is_default());
    assert!(DatabaseMode::Space.is_default());
    assert!(!DatabaseMode::Throughput.is_default());
}

#[test]
fn setup_paths_join_the_directory() {
    assert_eq!(get_config_path("/etc/filite"), "/etc/filite/config.toml");
    assert_eq!(get_password_path("/etc/filite"), "/etc/filite/passwd");
    assert_eq!(get_password_path(""), "/passwd");
}

#[test]
fn highlight_defaults() {
    let h = HighlightConfig::default();
    assert_eq!(h.themepath, "");
    assert_eq!(h.theme, "github");
    assert_eq!(h.languages, vec!["rust".to_owned()]);
}

#[test]
fn keyed_digest_is_deterministic_and_checked() {
    let key = [7u8; 32];
    let digest = hash(&key, b"secret phrase");
    assert_eq!(digest.len(), 32);
    assert_eq!(digest, hash(&key, b"secret phrase"));
    assert_ne!(digest, hash(&key, b"secret phrasf"));
    assert_ne!(digest, hash(&[8u8; 32], b"secret phrase"));

    assert!(password_matches(&key, b"secret phrase", &digest));
    assert!(!password_matches(&key, b"wrong", &digest));
    assert!(!password_matches(&key, b"secret phrase", &vec![0u8; 32]));
}

#[test]
fn select_filters_from_query() {
    let filters = SelectFilters::from(SelectQuery {
        from: Some(3),
        to: None,
        limit: Some(10),
        asc: None,
    });
    assert_eq!(filters.range, (Some(3), None));
    assert_eq!(filters.limit, Some(10));
    assert!(!filters.asc);

    let filters = SelectFilters::from(SelectQuery {
        from: None,
        to: Some(9),
        limit: None,
        asc: Some(true),
    });
    assert_eq!(filters.range, (None, Some(9)));
    assert!(filters.asc);
}

#[test]
fn put_file_decodes_its_base64_payload() {
    let body = PutFile { base64: "aGVsbG8=".to_owned(), filename: "greeting.txt".to_owned() };
    assert_eq!(body.decode_contents(), Some(b"hello".to_vec()));

    let bad = PutFile { base64: "%%%".to_owned(), filename: "x".to_owned() };
    assert_eq!(bad.decode_contents(), None);
}
