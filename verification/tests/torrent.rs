use torrent_rpc::decode::FromJson;
use torrent_rpc::error::DecodeError;
use torrent_rpc::json::{Json, Number};
use torrent_rpc::types::{
    File, FileStat, Torrent, TorrentAddedOrDuplicate, TorrentGetField, TorrentRenamePath,
    TorrentStatus, Trackers,
};

fn present_fields(torrent: &Torrent) -> Vec<TorrentGetField> {
    TorrentGetField::all().into_iter().filter(|field| torrent.has(*field)).collect()
}

fn file_json(name: &str, length: i64, done: i64) -> Json {
    Json::object(vec![
        Json::member("bytesCompleted", Json::integer(done)),
        Json::member("length", Json::integer(length)),
        Json::member("name", Json::text(name)),
    ])
}

fn bare_torrent() -> Torrent {
    Torrent::decode(&Json::object(Vec::new()), "torrent").unwrap()
}

#[test]
fn torrent_holds_exactly_the_fields_that_were_sent() {
    let json = Json::object(vec![
        Json::member("id", Json::integer(42)),
        Json::member("name", Json::text("debian-12.iso")),
    ]);
    let torrent = Torrent::decode(&json, "torrent").unwrap();
    assert_eq!(torrent.id, Some(42));
    assert_eq!(torrent.name.as_deref(), Some("debian-12.iso"));
    assert_eq!(present_fields(&torrent), vec![TorrentGetField::Id, TorrentGetField::Name]);
    assert!(torrent.status.is_none());
    assert!(torrent.percent_done.is_none());
    assert!(torrent.files.is_none());
    assert!(torrent.labels.is_none());
    assert!(torrent.error.is_none());
    assert!(torrent.is_finished.is_none());
}

#[test]
fn torrent_with_id_name_and_status() {
    let json = Json::object(vec![
        Json::member("status", Json::integer(4)),
        Json::member("name", Json::text("x")),
        Json::member("id", Json::integer(1)),
    ]);
    let torrent = Torrent::decode(&json, "torrent").unwrap();
    assert_eq!(torrent.status, Some(TorrentStatus::Downloading));
    assert_eq!(
        present_fields(&torrent),
        vec![TorrentGetField::Id, TorrentGetField::Name, TorrentGetField::Status]
    );
}

#[test]
fn torrent_of_no_fields_holds_none() {
    let torrent = bare_torrent();
    assert_eq!(present_fields(&torrent), Vec::new());
    for field in TorrentGetField::all() {
        assert!(!torrent.has(field));
    }
}

#[test]
fn every_field_is_read_under_its_own_name() {
    for field in TorrentGetField::all() {
        let value = match field {
            TorrentGetField::DownloadDir
            | TorrentGetField::ErrorString
            | TorrentGetField::Name
            | TorrentGetField::HashString
            | TorrentGetField::TorrentFile => Json::text("text"),
            TorrentGetField::IsFinished | TorrentGetField::IsPrivate | TorrentGetField::IsStalled => {
                Json::Bool(true)
            }
            TorrentGetField::Labels
            | TorrentGetField::Trackers
            | TorrentGetField::Files
            | TorrentGetField::Wanted
            | TorrentGetField::Priorities
            | TorrentGetField::FileStats => Json::Array(Vec::new()),
            _ => Json::integer(1),
        };
        let json = Json::object(vec![Json::member(field.to_str(), value)]);
        let torrent = Torrent::decode(&json, "torrent").unwrap();
        assert_eq!(present_fields(&torrent), vec![field]);
    }
}

#[test]
fn field_names_are_camel_case() {
    assert_eq!(TorrentGetField::Id.to_str(), "id");
    assert_eq!(TorrentGetField::Name.to_str(), "name");
    assert_eq!(TorrentGetField::ActivityDate.to_str(), "activityDate");
    assert_eq!(TorrentGetField::HashString.to_str(), "hashString");
    assert_eq!(TorrentGetField::PeersGettingFromUs.to_str(), "peersGettingFromUs");
    assert_eq!(TorrentGetField::MetadataPercentComplete.to_str(), "metadataPercentComplete");
    assert_eq!(TorrentGetField::FileStats.to_str(), "fileStats");
    assert_eq!(TorrentGetField::Eta.to_str(), "eta");
    let all = TorrentGetField::all();
    assert_eq!(all.len(), 37);
    for (i, a) in all.iter().enumerate() {
        for b in &all[i + 1..] {
            assert_ne!(a, b);
            assert_ne!(a.to_str(), b.to_str());
        }
    }
}

#[test]
fn every_field_has_the_name_of_the_protocol() {
    let names = [
        "activityDate",
        "addedDate",
        "doneDate",
        "downloadDir",
        "editDate",
        "error",
        "errorString",
        "eta",
        "id",
        "isFinished",
        "isPrivate",
        "isStalled",
        "labels",
        "leftUntilDone",
        "metadataPercentComplete",
        "name",
        "hashString",
        "peersConnected",
        "peersGettingFromUs",
        "peersSendingToUs",
        "percentDone",
        "rateDownload",
        "rateUpload",
        "recheckProgress",
        "secondsSeeding",
        "seedRatioLimit",
        "sizeWhenDone",
        "status",
        "torrentFile",
        "totalSize",
        "trackers",
        "uploadRatio",
        "uploadedEver",
        "files",
        "wanted",
        "priorities",
        "fileStats",
    ];
    let all = TorrentGetField::all();
    assert_eq!(all.len(), names.len());
    for (field, name) in all.iter().zip(names) {
        assert_eq!(field.to_str(), name);
    }
    let json = Json::object(names.iter().map(|name| Json::member(name, Json::Null)).collect());
    assert_eq!(present_fields(&Torrent::decode(&json, "torrent").unwrap()), Vec::new());
    let json = Json::object(
        names.iter().map(|name| Json::member(name, Json::object(Vec::new()))).collect(),
    );
    assert_eq!(
        Torrent::decode(&json, "torrent").err(),
        Some(DecodeError::WrongType("activityDate"))
    );
}

#[test]
fn torrent_skips_members_it_does_not_know() {
    let json = Json::object(vec![
        Json::member("id", Json::integer(1)),
        Json::member("sequentialDownload", Json::Bool(true)),
        Json::member("activity-date", Json::text("not a field")),
        Json::member("ID", Json::text("not a field")),
    ]);
    let torrent = Torrent::decode(&json, "torrent").unwrap();
    assert_eq!(present_fields(&torrent), vec![TorrentGetField::Id]);
    assert_eq!(torrent.id, Some(1));
}

#[test]
fn torrent_takes_null_for_a_field_that_was_not_sent() {
    let json = Json::object(vec![
        Json::member("id", Json::Null),
        Json::member("name", Json::text("n")),
    ]);
    let torrent = Torrent::decode(&json, "torrent").unwrap();
    assert_eq!(present_fields(&torrent), vec![TorrentGetField::Name]);
}

#[test]
fn torrent_must_be_an_object() {
    for json in [Json::Null, Json::Array(Vec::new()), Json::text("{}"), Json::integer(1)] {
        assert_eq!(Torrent::decode(&json, "torrent").err(), Some(DecodeError::WrongType("torrent")));
    }
}

#[test]
fn torrent_refuses_a_field_of_the_wrong_type() {
    let json = Json::object(vec![Json::member("id", Json::text("42"))]);
    assert_eq!(Torrent::decode(&json, "torrent").err(), Some(DecodeError::WrongType("id")));
    let json = Json::object(vec![Json::member("isFinished", Json::integer(1))]);
    assert_eq!(Torrent::decode(&json, "torrent").err(), Some(DecodeError::WrongType("isFinished")));
    let json = Json::object(vec![Json::member("percentDone", Json::text("0.5"))]);
    assert_eq!(Torrent::decode(&json, "torrent").err(), Some(DecodeError::WrongType("percentDone")));
    let json = Json::object(vec![Json::member("status", Json::integer(7))]);
    assert_eq!(Torrent::decode(&json, "torrent").err(), Some(DecodeError::UnknownStatus("status")));
    let json = Json::object(vec![Json::member("wanted", Json::Array(vec![Json::integer(300)]))]);
    assert_eq!(Torrent::decode(&json, "torrent").err(), Some(DecodeError::OutOfRange("wanted")));
    let json = Json::object(vec![
        Json::member("name", Json::text("a")),
        Json::member("name", Json::text("b")),
    ]);
    assert_eq!(Torrent::decode(&json, "torrent").err(), Some(DecodeError::RepeatedField("name")));
}

#[test]
fn torrent_reports_the_first_fault_in_field_order() {
    let json = Json::object(vec![
        Json::member("name", Json::integer(1)),
        Json::member("id", Json::text("x")),
        Json::member("addedDate", Json::Bool(false)),
    ]);
    assert_eq!(Torrent::decode(&json, "torrent").err(), Some(DecodeError::WrongType("addedDate")));
}

#[test]
fn torrent_numbers_are_taken_as_they_are() {
    let half = 0.5f64;
    let json = Json::object(vec![
        Json::member("totalSize", Json::integer(-5)),
        Json::member("eta", Json::integer(-1)),
        Json::member("rateDownload", Json::integer(i64::MAX)),
        Json::member("percentDone", Json::Number(Number::Real(half.to_bits()))),
        Json::member("uploadRatio", Json::integer(2)),
        Json::member("seedRatioLimit", Json::integer(-1)),
    ]);
    let torrent = Torrent::decode(&json, "torrent").unwrap();
    assert_eq!(torrent.total_size, Some(-5));
    assert_eq!(torrent.eta, Some(-1));
    assert_eq!(torrent.rate_download, Some(i64::MAX));
    assert_eq!(torrent.percent_done, Some(Number::Real(half.to_bits())));
    assert_eq!(torrent.upload_ratio, Some(Number::Unsigned(2)));
    assert_eq!(torrent.seed_ratio_limit, Some(Number::Signed(-1)));
}

#[test]
fn torrent_decodes_its_lists() {
    let json = Json::object(vec![
        Json::member("labels", Json::Array(vec![Json::text("linux"), Json::text("iso")])),
        Json::member(
            "trackers",
            Json::Array(vec![Json::object(vec![
                Json::member("id", Json::integer(0)),
                Json::member("announce", Json::text("http://tracker.example/announce")),
                Json::member("tier", Json::integer(0)),
            ])]),
        ),
        Json::member("files", Json::Array(vec![file_json("a.bin", 10, 5), file_json("b.bin", 20, 20)])),
        Json::member("wanted", Json::Array(vec![Json::integer(1), Json::integer(0)])),
        Json::member("priorities", Json::Array(vec![Json::integer(-1), Json::integer(1)])),
        Json::member(
            "fileStats",
            Json::Array(vec![
                Json::object(vec![
                    Json::member("bytesCompleted", Json::integer(5)),
                    Json::member("wanted", Json::Bool(true)),
                    Json::member("priority", Json::integer(-1)),
                ]),
                Json::object(vec![
                    Json::member("bytesCompleted", Json::integer(20)),
                    Json::member("wanted", Json::Bool(false)),
                    Json::member("priority", Json::integer(1)),
                ]),
            ]),
        ),
    ]);
    let torrent = Torrent::decode(&json, "torrent").unwrap();
    assert_eq!(torrent.labels, Some(vec!["linux".to_string(), "iso".to_string()]));
    let trackers = torrent.trackers.clone().unwrap();
    assert_eq!(trackers.len(), 1);
    assert_eq!(trackers[0].id, 0);
    assert_eq!(trackers[0].announce, "http://tracker.example/announce");
    let files = torrent.files.clone().unwrap();
    assert_eq!(files.len(), 2);
    assert_eq!((files[0].name.as_str(), files[0].length, files[0].bytes_completed), ("a.bin", 10, 5));
    assert_eq!((files[1].name.as_str(), files[1].length, files[1].bytes_completed), ("b.bin", 20, 20));
    assert_eq!(torrent.wanted, Some(vec![1, 0]));
    assert_eq!(torrent.priorities, Some(vec![-1, 1]));
    let stats = torrent.file_stats.clone().unwrap();
    assert_eq!((stats[0].bytes_completed, stats[0].wanted, stats[0].priority), (5, true, -1));
    assert_eq!((stats[1].bytes_completed, stats[1].wanted, stats[1].priority), (20, false, 1));
    assert!(torrent.is_consistent());
}

#[test]
fn wanted_is_an_integer_in_the_torrent_and_a_boolean_in_the_file_stats() {
    let json = Json::object(vec![Json::member("wanted", Json::Array(vec![Json::Bool(true)]))]);
    assert_eq!(Torrent::decode(&json, "torrent").err(), Some(DecodeError::WrongType("wanted")));
    let stat = Json::object(vec![
        Json::member("bytesCompleted", Json::integer(5)),
        Json::member("wanted", Json::integer(1)),
        Json::member("priority", Json::integer(0)),
    ]);
    assert_eq!(FileStat::decode(&stat, "fileStats").err(), Some(DecodeError::WrongType("wanted")));
}

#[test]
fn records_within_a_torrent_require_their_fields() {
    let json = Json::object(vec![Json::member("id", Json::integer(1))]);
    assert_eq!(Trackers::decode(&json, "trackers").err(), Some(DecodeError::MissingField("announce")));
    let json = Json::object(vec![
        Json::member("length", Json::integer(1)),
        Json::member("name", Json::text("f")),
    ]);
    assert_eq!(File::decode(&json, "files").err(), Some(DecodeError::MissingField("bytesCompleted")));
    let json = Json::object(vec![
        Json::member("length", Json::integer(1)),
        Json::member("bytes_completed", Json::integer(1)),
        Json::member("name", Json::text("f")),
    ]);
    assert_eq!(File::decode(&json, "files").err(), Some(DecodeError::MissingField("bytesCompleted")));
    let json = Json::object(vec![Json::member("files", Json::Array(vec![Json::Null]))]);
    assert_eq!(Torrent::decode(&json, "torrent").err(), Some(DecodeError::WrongType("files")));
}

#[test]
fn lists_by_file_must_be_as_long_as_the_files() {
    let mut torrent = bare_torrent();
    assert!(torrent.is_consistent());
    torrent.files = Some(vec![
        File { length: 1, bytes_completed: 0, name: "a".to_string() },
        File { length: 2, bytes_completed: 0, name: "b".to_string() },
    ]);
    assert!(torrent.is_consistent());
    torrent.wanted = Some(vec![1, 0]);
    torrent.priorities = Some(vec![0, 1]);
    torrent.file_stats = Some(vec![
        FileStat { bytes_completed: 0, wanted: true, priority: 0 },
        FileStat { bytes_completed: 0, wanted: false, priority: 1 },
    ]);
    assert!(torrent.is_consistent());
    torrent.wanted = Some(vec![1]);
    assert!(!torrent.is_consistent());
    torrent.wanted = Some(vec![1, 0]);
    torrent.priorities = Some(vec![0, 1, 0]);
    assert!(!torrent.is_consistent());
    torrent.priorities = Some(vec![0, 1]);
    torrent.file_stats = Some(Vec::new());
    assert!(!torrent.is_consistent());
    torrent.file_stats = None;
    assert!(torrent.is_consistent());
}

#[test]
fn codes_by_file_must_be_codes() {
    let mut torrent = bare_torrent();
    torrent.wanted = Some(vec![0, 1, 1, 0]);
    torrent.priorities = Some(vec![-1, 0, 1]);
    assert!(torrent.is_consistent());
    torrent.wanted = Some(vec![0, 2]);
    assert!(!torrent.is_consistent());
    torrent.wanted = Some(vec![-1]);
    assert!(!torrent.is_consistent());
    torrent.wanted = None;
    torrent.priorities = Some(vec![2]);
    assert!(!torrent.is_consistent());
    torrent.priorities = Some(vec![0, -2]);
    assert!(!torrent.is_consistent());
}

#[test]
fn added_torrent_decodes_as_added() {
    let json = Json::object(vec![Json::member(
        "torrent-added",
        Json::object(vec![
            Json::member("hashString", Json::text("0123456789abcdef")),
            Json::member("id", Json::integer(9)),
            Json::member("name", Json::text("new")),
        ]),
    )]);
    match TorrentAddedOrDuplicate::decode(&json, "arguments").unwrap() {
        TorrentAddedOrDuplicate::TorrentAdded(torrent) => {
            assert_eq!(torrent.id, Some(9));
            assert_eq!(torrent.name.as_deref(), Some("new"));
            assert_eq!(torrent.hash_string.as_deref(), Some("0123456789abcdef"));
        }
        other => panic!("not added: {:?}", other),
    }
}

#[test]
fn duplicate_torrent_decodes_as_duplicate() {
    let json = Json::object(vec![Json::member(
        "torrent-duplicate",
        Json::object(vec![Json::member("id", Json::integer(3))]),
    )]);
    match TorrentAddedOrDuplicate::decode(&json, "arguments").unwrap() {
        TorrentAddedOrDuplicate::TorrentDuplicate(torrent) => assert_eq!(torrent.id, Some(3)),
        other => panic!("not a duplicate: {:?}", other),
    }
}

#[test]
fn neither_key_fails_to_decode() {
    assert_eq!(
        TorrentAddedOrDuplicate::decode(&Json::object(Vec::new()), "arguments").err(),
        Some(DecodeError::NoVariant("arguments"))
    );
    let json = Json::object(vec![
        Json::member("torrent_added", Json::object(Vec::new())),
        Json::member("torrentAdded", Json::object(Vec::new())),
        Json::member("id", Json::integer(1)),
    ]);
    assert_eq!(
        TorrentAddedOrDuplicate::decode(&json, "arguments").err(),
        Some(DecodeError::NoVariant("arguments"))
    );
    assert_eq!(
        TorrentAddedOrDuplicate::decode(&Json::Null, "arguments").err(),
        Some(DecodeError::WrongType("arguments"))
    );
}

#[test]
fn the_duplicate_key_is_tried_first() {
    let json = Json::object(vec![
        Json::member("torrent-added", Json::object(vec![Json::member("id", Json::integer(1))])),
        Json::member("torrent-duplicate", Json::object(vec![Json::member("id", Json::integer(2))])),
    ]);
    match TorrentAddedOrDuplicate::decode(&json, "arguments").unwrap() {
        TorrentAddedOrDuplicate::TorrentDuplicate(torrent) => assert_eq!(torrent.id, Some(2)),
        other => panic!("not a duplicate: {:?}", other),
    }
}

#[test]
fn the_torrent_under_the_key_must_decode() {
    let json = Json::object(vec![Json::member("torrent-added", Json::Null)]);
    assert_eq!(
        TorrentAddedOrDuplicate::decode(&json, "arguments").err(),
        Some(DecodeError::WrongType("torrent-added"))
    );
    let json = Json::object(vec![Json::member(
        "torrent-duplicate",
        Json::object(vec![Json::member("id", Json::text("x"))]),
    )]);
    assert_eq!(
        TorrentAddedOrDuplicate::decode(&json, "arguments").err(),
        Some(DecodeError::WrongType("id"))
    );
    let json = Json::object(vec![
        Json::member("torrent-added", Json::object(Vec::new())),
        Json::member("torrent-added", Json::object(Vec::new())),
    ]);
    assert_eq!(
        TorrentAddedOrDuplicate::decode(&json, "arguments").err(),
        Some(DecodeError::RepeatedField("torrent-added"))
    );
}

#[test]
fn rename_result_decodes() {
    let json = Json::object(vec![
        Json::member("path", Json::text("dir/old")),
        Json::member("name", Json::text("new")),
        Json::member("id", Json::integer(5)),
    ]);
    let renamed = TorrentRenamePath::decode(&json, "arguments").unwrap();
    assert_eq!(renamed.path.as_deref(), Some("dir/old"));
    assert_eq!(renamed.name.as_deref(), Some("new"));
    assert_eq!(renamed.id, Some(5));
    let renamed = TorrentRenamePath::decode(&Json::object(Vec::new()), "arguments").unwrap();
    assert!(renamed.path.is_none() && renamed.name.is_none() && renamed.id.is_none());
}
