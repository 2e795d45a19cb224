use torrent_rpc::decode::FromJson;
use torrent_rpc::error::DecodeError;
use torrent_rpc::json::{Json, Number};
use torrent_rpc::types::{Encryption, SessionGet, SessionStats, Stats};
use torrent_rpc::version::{read_version, version_field};

fn session_members() -> Vec<(String, Json)> {
    let ratio = 2.5f64;
    vec![
        Json::member("alt-speed-down", Json::integer(50)),
        Json::member("alt-speed-enabled", Json::Bool(false)),
        Json::member("alt-speed-time-begin", Json::integer(540)),
        Json::member("alt-speed-time-delay", Json::integer(127)),
        Json::member("alt-speed-time-enabled", Json::Bool(false)),
        Json::member("alt-speed-time-end", Json::integer(1020)),
        Json::member("blocklist-enabled", Json::Bool(true)),
        Json::member("blocklist-size", Json::integer(393006)),
        Json::member("blocklist-url", Json::text("http://www.example.com/blocklist")),
        Json::member("cache-size-mb", Json::integer(4)),
        Json::member("config-dir", Json::text("/var/lib/daemon/config")),
        Json::member("default-trackers", Json::Array(vec![Json::text("udp://tracker.example:1337")])),
        Json::member("dht-enabled", Json::Bool(true)),
        Json::member("download-dir", Json::text("/var/lib/daemon/downloads")),
        Json::member("download-queue-enabled", Json::Bool(true)),
        Json::member("download-queue-size", Json::integer(5)),
        Json::member("encryption", Json::text("preferred")),
        Json::member("idle-seeding-limit-enabled", Json::Bool(false)),
        Json::member("idle-seeding-limit", Json::integer(30)),
        Json::member("incomplete-dir-enabled", Json::Bool(false)),
        Json::member("incomplete-dir", Json::text("/var/lib/daemon/incomplete")),
        Json::member("lpd-enabled", Json::Bool(false)),
        Json::member("peer-limit-global", Json::integer(200)),
        Json::member("peer-limit-per-torrent", Json::integer(50)),
        Json::member("peer-port-random-on-start", Json::Bool(false)),
        Json::member("peer-port", Json::integer(51413)),
        Json::member("pex-enabled", Json::Bool(true)),
        Json::member("port-forwarding-enabled", Json::Bool(true)),
        Json::member("queue-stalled-enabled", Json::Bool(true)),
        Json::member("queue-stalled-minutes", Json::integer(30)),
        Json::member("rename-partial-files", Json::Bool(true)),
        Json::member("rpc-version", Json::integer(17)),
        Json::member("rpc-version-minimum", Json::integer(14)),
        Json::member("rpc-version-semver", Json::text("5.3.0")),
        Json::member("script-torrent-added-enabled", Json::Bool(false)),
        Json::member("script-torrent-added-filename", Json::text("")),
        Json::member("script-torrent-done-enabled", Json::Bool(false)),
        Json::member("script-torrent-done-filename", Json::text("")),
        Json::member("script-torrent-done-seeding-enabled", Json::Bool(false)),
        Json::member("script-torrent-done-seeding-filename", Json::text("")),
        Json::member("seed-queue-enabled", Json::Bool(false)),
        Json::member("seed-queue-size", Json::integer(10)),
        Json::member("seedRatioLimit", Json::integer(2)),
        Json::member("seed-ratio-limit", Json::Number(Number::Real(ratio.to_bits()))),
        Json::member("seed-ratio-limited", Json::Bool(false)),
        Json::member("speed-limit-down", Json::integer(100)),
        Json::member("speed-limit-down-enabled", Json::Bool(false)),
        Json::member("speed-limit-up", Json::integer(100)),
        Json::member("speed-limit-up-enabled", Json::Bool(false)),
        Json::member("start-added-torrents", Json::Bool(true)),
        Json::member("trash-original-torrent-files", Json::Bool(false)),
        Json::member("utp-enabled", Json::Bool(true)),
        Json::member("version", Json::text("4.0.5 (a6fe2a64aa)")),
    ]
}

fn session_with(key: &str, value: Json) -> Json {
    let members = session_members()
        .into_iter()
        .map(|(k, v)| if k == key { (k, value.clone()) } else { (k, v) })
        .collect();
    Json::object(members)
}

fn session_without(key: &str) -> Json {
    Json::object(session_members().into_iter().filter(|(k, _)| k != key).collect())
}

fn stats_json(files: i64, down: i64, up: i64, seconds: i64, sessions: Option<i64>) -> Json {
    let mut members = vec![
        Json::member("uploadedBytes", Json::integer(up)),
        Json::member("downloadedBytes", Json::integer(down)),
        Json::member("filesAdded", Json::integer(files)),
        Json::member("secondsActive", Json::integer(seconds)),
    ];
    if let Some(count) = sessions {
        members.push(Json::member("sessionCount", Json::integer(count)));
    }
    Json::object(members)
}

#[test]
fn session_settings_decode() {
    let session = SessionGet::decode(&Json::object(session_members()), "arguments").unwrap();
    assert_eq!(session.alt_speed_down, 50);
    assert!(!session.alt_speed_enabled);
    assert_eq!(session.alt_speed_time_begin, 540);
    assert_eq!(session.alt_speed_time_delay, 127);
    assert_eq!(session.alt_speed_time_end, 1020);
    assert!(session.blocklist_enabled);
    assert_eq!(session.blocklist_size, 393006);
    assert_eq!(session.blocklist_url, "http://www.example.com/blocklist");
    assert_eq!(session.cache_size_mb, 4);
    assert_eq!(session.config_dir, "/var/lib/daemon/config");
    assert_eq!(session.default_trackers, vec!["udp://tracker.example:1337".to_string()]);
    assert_eq!(session.download_dir, "/var/lib/daemon/downloads");
    assert_eq!(session.download_queue_size, 5);
    assert_eq!(session.encryption, Encryption::Preferred);
    assert_eq!(session.idle_seeding_limit, 30);
    assert_eq!(session.incomplete_dir, "/var/lib/daemon/incomplete");
    assert_eq!(session.peer_limit_global, 200);
    assert_eq!(session.peer_limit_per_torrent, 50);
    assert_eq!(session.peer_port, 51413);
    assert_eq!(session.queue_stalled_minutes, 30);
    assert_eq!(session.rpc_version, 17);
    assert_eq!(session.rpc_version_minimum, 14);
    assert_eq!(session.rpc_version_semver, semver::Version::new(5, 3, 0));
    assert_eq!(session.script_torrent_done_seeding_filename, "");
    assert_eq!(session.seed_queue_size, 10);
    assert_eq!(session.seed_ratio_limit, Number::Real(2.5f64.to_bits()));
    assert!(!session.seed_ratio_limited);
    assert_eq!(session.speed_limit_down, 100);
    assert_eq!(session.speed_limit_up, 100);
    assert!(session.start_added_torrents);
    assert!(!session.trash_original_torrent_files);
    assert!(session.utp_enabled);
    assert_eq!(session.version, "4.0.5 (a6fe2a64aa)");
    let copy = session.clone();
    assert_eq!(copy.rpc_version_semver, session.rpc_version_semver);
    assert_eq!(copy.download_dir, session.download_dir);
}

#[test]
fn session_settings_require_every_field() {
    for (key, _) in session_members() {
        if key == "seedRatioLimit" {
            continue;
        }
        let fault = SessionGet::decode(&session_without(&key), "arguments").err();
        match fault {
            Some(DecodeError::MissingField(missing)) => assert_eq!(missing, key),
            other => panic!("without {}: {:?}", key, other),
        }
    }
}

#[test]
fn session_settings_refuse_null() {
    for (key, _) in session_members() {
        if key == "seedRatioLimit" {
            continue;
        }
        let fault = SessionGet::decode(&session_with(&key, Json::Null), "arguments").err();
        match fault {
            Some(DecodeError::WrongType(at)) => assert_eq!(at, key),
            other => panic!("with null under {}: {:?}", key, other),
        }
    }
}

#[test]
fn session_settings_hold_integers_to_their_types() {
    let too_wide = session_with("peer-port", Json::integer(65536));
    assert_eq!(
        SessionGet::decode(&too_wide, "arguments").err(),
        Some(DecodeError::OutOfRange("peer-port"))
    );
    let negative = session_with("blocklist-size", Json::integer(-1));
    assert_eq!(
        SessionGet::decode(&negative, "arguments").err(),
        Some(DecodeError::OutOfRange("blocklist-size"))
    );
    let too_wide = session_with("rpc-version", Json::integer(1 << 31));
    assert_eq!(
        SessionGet::decode(&too_wide, "arguments").err(),
        Some(DecodeError::OutOfRange("rpc-version"))
    );
    let negative = session_with("cache-size-mb", Json::integer(-4));
    assert_eq!(SessionGet::decode(&negative, "arguments").unwrap().cache_size_mb, -4);
}

#[test]
fn session_settings_refuse_an_unknown_encryption() {
    let json = session_with("encryption", Json::text("optional"));
    assert_eq!(
        SessionGet::decode(&json, "arguments").err(),
        Some(DecodeError::UnknownToken("encryption"))
    );
    for (token, mode) in [
        ("required", Encryption::Required),
        ("preferred", Encryption::Preferred),
        ("tolerated", Encryption::Tolerated),
    ] {
        let json = session_with("encryption", Json::text(token));
        assert_eq!(SessionGet::decode(&json, "arguments").unwrap().encryption, mode);
    }
}

#[test]
fn session_version_is_read_by_semver() {
    let json = session_with("rpc-version-semver", Json::text("5.4.0-beta.1+build.7"));
    let version = SessionGet::decode(&json, "arguments").unwrap().rpc_version_semver;
    assert_eq!((version.major, version.minor, version.patch), (5, 4, 0));
    assert_eq!(version.pre.as_str(), "beta.1");
    assert_eq!(version.build.as_str(), "build.7");
    assert!(version < semver::Version::new(5, 4, 0));
    assert!(version > semver::Version::new(5, 3, 9));
    for text in ["5.3", "", "5.3.0.1", "v5.3.0", "5.03.0", "5.3.0-", "five"] {
        let json = session_with("rpc-version-semver", Json::text(text));
        assert_eq!(
            SessionGet::decode(&json, "arguments").err(),
            Some(DecodeError::BadVersion("rpc-version-semver"))
        );
    }
    let json = session_with("rpc-version-semver", Json::integer(5));
    assert_eq!(
        SessionGet::decode(&json, "arguments").err(),
        Some(DecodeError::WrongType("rpc-version-semver"))
    );
}

#[test]
fn read_version_reads_what_semver_reads() {
    assert_eq!(read_version("1.2.3"), Some(semver::Version::new(1, 2, 3)));
    assert_eq!(read_version("0.0.0"), Some(semver::Version::new(0, 0, 0)));
    assert_eq!(read_version("10.20.30"), semver::Version::parse("10.20.30").ok());
    assert_eq!(read_version("1.0.0-alpha"), semver::Version::parse("1.0.0-alpha").ok());
    assert_ne!(read_version("1.2.3"), read_version("1.2.4"));
    assert_eq!(read_version("1.2"), None);
    assert_eq!(read_version("1.2.x"), None);
    assert_eq!(read_version(""), None);
}

#[test]
fn a_version_field_takes_the_version_or_reports_its_key() {
    let version = semver::Version::new(5, 3, 0);
    assert_eq!(version_field(Some(version.clone()), "rpc-version-semver"), Ok(version));
    assert_eq!(version_field(None, "rpc-version-semver"), Err(DecodeError::BadVersion("rpc-version-semver")));
    assert_eq!(version_field(None, "other"), Err(DecodeError::BadVersion("other")));
}

#[test]
fn session_stats_decode() {
    let json = Json::object(vec![
        Json::member("activeTorrentCount", Json::integer(2)),
        Json::member("cumulative-stats", stats_json(12, 1_000_000, 2_000_000, 86_400, Some(30))),
        Json::member("current-stats", stats_json(1, 1_000, 2_000, 60, Some(1))),
        Json::member("downloadSpeed", Json::integer(1024)),
        Json::member("pausedTorrentCount", Json::integer(3)),
        Json::member("torrentCount", Json::integer(5)),
        Json::member("uploadSpeed", Json::integer(0)),
    ]);
    let stats = SessionStats::decode(&json, "arguments").unwrap();
    assert_eq!(stats.torrent_count, 5);
    assert_eq!(stats.active_torrent_count, 2);
    assert_eq!(stats.paused_torrent_count, 3);
    assert_eq!(stats.download_speed, 1024);
    assert_eq!(stats.upload_speed, 0);
    assert_eq!(stats.current_stats.files_added, 1);
    assert_eq!(stats.current_stats.downloaded_bytes, 1_000);
    assert_eq!(stats.current_stats.uploaded_bytes, 2_000);
    assert_eq!(stats.current_stats.seconds_active, 60);
    assert_eq!(stats.current_stats.session_count, Some(1));
    assert_eq!(stats.cumulative_stats.files_added, 12);
    assert_eq!(stats.cumulative_stats.downloaded_bytes, 1_000_000);
    assert_eq!(stats.cumulative_stats.uploaded_bytes, 2_000_000);
    assert_eq!(stats.cumulative_stats.seconds_active, 86_400);
    assert_eq!(stats.cumulative_stats.session_count, Some(30));
}

#[test]
fn session_stats_mix_both_conventions_of_keys() {
    let json = Json::object(vec![
        Json::member("activeTorrentCount", Json::integer(2)),
        Json::member("cumulativeStats", stats_json(12, 1, 2, 3, None)),
        Json::member("currentStats", stats_json(1, 1, 2, 3, None)),
        Json::member("downloadSpeed", Json::integer(1024)),
        Json::member("pausedTorrentCount", Json::integer(3)),
        Json::member("torrentCount", Json::integer(5)),
        Json::member("uploadSpeed", Json::integer(0)),
    ]);
    assert_eq!(
        SessionStats::decode(&json, "arguments").err(),
        Some(DecodeError::MissingField("current-stats"))
    );
    let json = Json::object(vec![
        Json::member("active-torrent-count", Json::integer(2)),
        Json::member("torrent-count", Json::integer(5)),
        Json::member("torrentCount", Json::integer(5)),
    ]);
    assert_eq!(
        SessionStats::decode(&json, "arguments").err(),
        Some(DecodeError::MissingField("activeTorrentCount"))
    );
}

#[test]
fn stats_may_lack_the_session_count() {
    let stats = Stats::decode(&stats_json(1, 2, 3, 4, None), "current-stats").unwrap();
    assert_eq!(stats.session_count, None);
    assert_eq!(stats.files_added, 1);
    let json = Json::object(vec![Json::member("filesAdded", Json::integer(1))]);
    assert_eq!(
        Stats::decode(&json, "current-stats").err(),
        Some(DecodeError::MissingField("downloadedBytes"))
    );
    assert_eq!(
        Stats::decode(&Json::Array(Vec::new()), "current-stats").err(),
        Some(DecodeError::WrongType("current-stats"))
    );
}
