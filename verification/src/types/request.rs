//! What callers send to the daemon: the arguments of its methods.

use crate::encode::{always, entry, written, Entry, ObjectWriter, ToJson};
use crate::json::{Json, JsonView, Number};
use crate::types::Encryption;
use vstd::prelude::*;

verus! {

/// A field of a torrent that a query can ask for.
#[derive(Debug, Clone, Copy, PartialEq, Eq, Structural)]
pub enum TorrentGetField {
    ActivityDate,
    AddedDate,
    DoneDate,
    DownloadDir,
    EditDate,
    Error,
    ErrorString,
    Eta,
    Id,
    IsFinished,
    IsPrivate,
    IsStalled,
    Labels,
    LeftUntilDone,
    MetadataPercentComplete,
    Name,
    HashString,
    PeersConnected,
    PeersGettingFromUs,
    PeersSendingToUs,
    PercentDone,
    RateDownload,
    RateUpload,
    RecheckProgress,
    SecondsSeeding,
    SeedRatioLimit,
    SizeWhenDone,
    Status,
    TorrentFile,
    TotalSize,
    Trackers,
    UploadRatio,
    UploadedEver,
    Files,
    Wanted,
    Priorities,
    FileStats,
}

impl TorrentGetField {
    /// The name of the field on the wire.
    pub open spec fn name(self) -> Seq<char> {
        match self {
            TorrentGetField::ActivityDate => "activityDate"@,
            TorrentGetField::AddedDate => "addedDate"@,
            TorrentGetField::DoneDate => "doneDate"@,
            TorrentGetField::DownloadDir => "downloadDir"@,
            TorrentGetField::EditDate => "editDate"@,
            TorrentGetField::Error => "error"@,
            TorrentGetField::ErrorString => "errorString"@,
            TorrentGetField::Eta => "eta"@,
            TorrentGetField::Id => "id"@,
            TorrentGetField::IsFinished => "isFinished"@,
            TorrentGetField::IsPrivate => "isPrivate"@,
            TorrentGetField::IsStalled => "isStalled"@,
            TorrentGetField::Labels => "labels"@,
            TorrentGetField::LeftUntilDone => "leftUntilDone"@,
            TorrentGetField::MetadataPercentComplete => "metadataPercentComplete"@,
            TorrentGetField::Name => "name"@,
            TorrentGetField::HashString => "hashString"@,
            TorrentGetField::PeersConnected => "peersConnected"@,
            TorrentGetField::PeersGettingFromUs => "peersGettingFromUs"@,
            TorrentGetField::PeersSendingToUs => "peersSendingToUs"@,
            TorrentGetField::PercentDone => "percentDone"@,
            TorrentGetField::RateDownload => "rateDownload"@,
            TorrentGetField::RateUpload => "rateUpload"@,
            TorrentGetField::RecheckProgress => "recheckProgress"@,
            TorrentGetField::SecondsSeeding => "secondsSeeding"@,
            TorrentGetField::SeedRatioLimit => "seedRatioLimit"@,
            TorrentGetField::SizeWhenDone => "sizeWhenDone"@,
            TorrentGetField::Status => "status"@,
            TorrentGetField::TorrentFile => "torrentFile"@,
            TorrentGetField::TotalSize => "totalSize"@,
            TorrentGetField::Trackers => "trackers"@,
            TorrentGetField::UploadRatio => "uploadRatio"@,
            TorrentGetField::UploadedEver => "uploadedEver"@,
            TorrentGetField::Files => "files"@,
            TorrentGetField::Wanted => "wanted"@,
            TorrentGetField::Priorities => "priorities"@,
            TorrentGetField::FileStats => "fileStats"@,
        }
    }

    /// The name of the field on the wire.
    pub fn to_str(self) -> (name: &'static str)
        ensures
            name@ == self.name(),
    {
        match self {
            TorrentGetField::ActivityDate => "activityDate",
            TorrentGetField::AddedDate => "addedDate",
            TorrentGetField::DoneDate => "doneDate",
            TorrentGetField::DownloadDir => "downloadDir",
            TorrentGetField::EditDate => "editDate",
            TorrentGetField::Error => "error",
            TorrentGetField::ErrorString => "errorString",
            TorrentGetField::Eta => "eta",
            TorrentGetField::Id => "id",
            TorrentGetField::IsFinished => "isFinished",
            TorrentGetField::IsPrivate => "isPrivate",
            TorrentGetField::IsStalled => "isStalled",
            TorrentGetField::Labels => "labels",
            TorrentGetField::LeftUntilDone => "leftUntilDone",
            TorrentGetField::MetadataPercentComplete => "metadataPercentComplete",
            TorrentGetField::Name => "name",
            TorrentGetField::HashString => "hashString",
            TorrentGetField::PeersConnected => "peersConnected",
            TorrentGetField::PeersGettingFromUs => "peersGettingFromUs",
            TorrentGetField::PeersSendingToUs => "peersSendingToUs",
            TorrentGetField::PercentDone => "percentDone",
            TorrentGetField::RateDownload => "rateDownload",
            TorrentGetField::RateUpload => "rateUpload",
            TorrentGetField::RecheckProgress => "recheckProgress",
            TorrentGetField::SecondsSeeding => "secondsSeeding",
            TorrentGetField::SeedRatioLimit => "seedRatioLimit",
            TorrentGetField::SizeWhenDone => "sizeWhenDone",
            TorrentGetField::Status => "status",
            TorrentGetField::TorrentFile => "torrentFile",
            TorrentGetField::TotalSize => "totalSize",
            TorrentGetField::Trackers => "trackers",
            TorrentGetField::UploadRatio => "uploadRatio",
            TorrentGetField::UploadedEver => "uploadedEver",
            TorrentGetField::Files => "files",
            TorrentGetField::Wanted => "wanted",
            TorrentGetField::Priorities => "priorities",
            TorrentGetField::FileStats => "fileStats",
        }
    }

    /// Every field, in the order of the record.
    pub open spec fn every() -> Seq<TorrentGetField> {
        seq![
            TorrentGetField::ActivityDate,
            TorrentGetField::AddedDate,
            TorrentGetField::DoneDate,
            TorrentGetField::DownloadDir,
            TorrentGetField::EditDate,
            TorrentGetField::Error,
            TorrentGetField::ErrorString,
            TorrentGetField::Eta,
            TorrentGetField::Id,
            TorrentGetField::IsFinished,
            TorrentGetField::IsPrivate,
            TorrentGetField::IsStalled,
            TorrentGetField::Labels,
            TorrentGetField::LeftUntilDone,
            TorrentGetField::MetadataPercentComplete,
            TorrentGetField::Name,
            TorrentGetField::HashString,
            TorrentGetField::PeersConnected,
            TorrentGetField::PeersGettingFromUs,
            TorrentGetField::PeersSendingToUs,
            TorrentGetField::PercentDone,
            TorrentGetField::RateDownload,
            TorrentGetField::RateUpload,
            TorrentGetField::RecheckProgress,
            TorrentGetField::SecondsSeeding,
            TorrentGetField::SeedRatioLimit,
            TorrentGetField::SizeWhenDone,
            TorrentGetField::Status,
            TorrentGetField::TorrentFile,
            TorrentGetField::TotalSize,
            TorrentGetField::Trackers,
            TorrentGetField::UploadRatio,
            TorrentGetField::UploadedEver,
            TorrentGetField::Files,
            TorrentGetField::Wanted,
            TorrentGetField::Priorities,
            TorrentGetField::FileStats,
        ]
    }

    /// Every field once, in the order of the record.
    pub fn all() -> (fields: Vec<TorrentGetField>)
        ensures
            fields@ == TorrentGetField::every(),
            forall|field: TorrentGetField| fields@.contains(field),
            fields@.no_duplicates(),
    {
        let fields = vec![
            TorrentGetField::ActivityDate,
            TorrentGetField::AddedDate,
            TorrentGetField::DoneDate,
            TorrentGetField::DownloadDir,
            TorrentGetField::EditDate,
            TorrentGetField::Error,
            TorrentGetField::ErrorString,
            TorrentGetField::Eta,
            TorrentGetField::Id,
            TorrentGetField::IsFinished,
            TorrentGetField::IsPrivate,
            TorrentGetField::IsStalled,
            TorrentGetField::Labels,
            TorrentGetField::LeftUntilDone,
            TorrentGetField::MetadataPercentComplete,
            TorrentGetField::Name,
            TorrentGetField::HashString,
            TorrentGetField::PeersConnected,
            TorrentGetField::PeersGettingFromUs,
            TorrentGetField::PeersSendingToUs,
            TorrentGetField::PercentDone,
            TorrentGetField::RateDownload,
            TorrentGetField::RateUpload,
            TorrentGetField::RecheckProgress,
            TorrentGetField::SecondsSeeding,
            TorrentGetField::SeedRatioLimit,
            TorrentGetField::SizeWhenDone,
            TorrentGetField::Status,
            TorrentGetField::TorrentFile,
            TorrentGetField::TotalSize,
            TorrentGetField::Trackers,
            TorrentGetField::UploadRatio,
            TorrentGetField::UploadedEver,
            TorrentGetField::Files,
            TorrentGetField::Wanted,
            TorrentGetField::Priorities,
            TorrentGetField::FileStats,
        ];
        fields
    }
}

impl ToJson for TorrentGetField {
    open spec fn encoding(&self) -> JsonView {
        JsonView::Text(self.name())
    }

    fn to_json(&self) -> (json: Json) {
        Json::Text(self.to_str().to_owned())
    }
}

/// Names a torrent, by the number that the daemon gave it or by its hash.
#[derive(Debug, Clone)]
pub enum Id {
    Id(i64),
    Hash(String),
}

impl ToJson for Id {
    /// The number or the hash stands on the wire as it is, with nothing to tell which it is
    /// but its JSON type.
    open spec fn encoding(&self) -> JsonView {
        match self {
            Id::Id(number) => number.encoding(),
            Id::Hash(hash) => hash.encoding(),
        }
    }

    fn to_json(&self) -> (json: Json) {
        match self {
            Id::Id(number) => number.to_json(),
            Id::Hash(hash) => hash.to_json(),
        }
    }
}

/// What can be done to torrents without further arguments.
#[derive(Debug, Clone, Copy, PartialEq, Eq, Structural)]
pub enum TorrentAction {
    Start,
    Stop,
    StartNow,
    Verify,
    Reannounce,
}

impl TorrentAction {
    /// The name of the method that performs the action.
    pub open spec fn method(self) -> Seq<char> {
        match self {
            TorrentAction::Start => "torrent-start"@,
            TorrentAction::Stop => "torrent-stop"@,
            TorrentAction::StartNow => "torrent-start-now"@,
            TorrentAction::Verify => "torrent-verify"@,
            TorrentAction::Reannounce => "torrent-reannounce"@,
        }
    }

    /// The name of the method that performs the action.
    pub fn to_str(self) -> (name: &'static str)
        ensures
            name@ == self.method(),
    {
        match self {
            TorrentAction::Start => "torrent-start",
            TorrentAction::Stop => "torrent-stop",
            TorrentAction::StartNow => "torrent-start-now",
            TorrentAction::Verify => "torrent-verify",
            TorrentAction::Reannounce => "torrent-reannounce",
        }
    }
}

/// A change to the settings of the session. Only the fields that are set go on the wire: the
/// daemon leaves alone what the message does not name.
#[derive(Debug, Clone)]
pub struct SessionSetArgs {
    pub alt_speed_down: Option<i64>,
    pub alt_speed_enabled: Option<bool>,
    pub alt_speed_time_begin: Option<i64>,
    pub alt_speed_time_delay: Option<i64>,
    pub alt_speed_time_enabled: Option<bool>,
    pub alt_speed_time_end: Option<i64>,
    pub blocklist_enabled: Option<bool>,
    pub blocklist_url: Option<String>,
    pub cache_size_mb: Option<isize>,
    pub default_trackers: Option<Vec<String>>,
    pub dht_enabled: Option<bool>,
    pub download_dir: Option<String>,
    pub download_queue_enabled: Option<bool>,
    pub download_queue_size: Option<isize>,
    pub encryption: Option<Encryption>,
    pub idle_seeding_limit_enabled: Option<bool>,
    pub idle_seeding_limit: Option<isize>,
    pub incomplete_dir_enabled: Option<bool>,
    pub incomplete_dir: Option<String>,
    pub lpd_enabled: Option<bool>,
    pub peer_limit_global: Option<isize>,
    pub peer_limit_per_torrent: Option<isize>,
    pub peer_port_random_on_start: Option<bool>,
    pub peer_port: Option<u16>,
    pub pex_enabled: Option<bool>,
    pub port_forwarding_enabled: Option<bool>,
    pub queue_stalled_enabled: Option<bool>,
    pub queue_stalled_minutes: Option<isize>,
    pub rename_partial_files: Option<bool>,
    pub script_torrent_added_enabled: Option<bool>,
    pub script_torrent_added_filename: Option<String>,
    pub script_torrent_done_enabled: Option<bool>,
    pub script_torrent_done_filename: Option<String>,
    pub script_torrent_done_seeding_enabled: Option<bool>,
    pub script_torrent_done_seeding_filename: Option<String>,
    pub seed_queue_enabled: Option<bool>,
    pub seed_queue_size: Option<isize>,
    pub seed_ratio_limit: Option<Number>,
    pub seed_ratio_limited: Option<bool>,
    pub speed_limit_down: Option<isize>,
    pub speed_limit_down_enabled: Option<bool>,
    pub speed_limit_up: Option<isize>,
    pub speed_limit_up_enabled: Option<bool>,
    pub start_added_torrents: Option<bool>,
    pub trash_original_torrent_files: Option<bool>,
    pub utp_enabled: Option<bool>,
}

impl SessionSetArgs {
    /// The fields in the order in which they are written, each with its key.
    pub open spec fn entries(&self) -> Seq<Entry> {
        Seq::empty()
            .push(entry("alt-speed-down", self.alt_speed_down))
            .push(entry("alt-speed-enabled", self.alt_speed_enabled))
            .push(entry("alt-speed-time-begin", self.alt_speed_time_begin))
            .push(entry("alt-speed-time-delay", self.alt_speed_time_delay))
            .push(entry("alt-speed-time-enabled", self.alt_speed_time_enabled))
            .push(entry("alt-speed-time-end", self.alt_speed_time_end))
            .push(entry("blocklist-enabled", self.blocklist_enabled))
            .push(entry("blocklist-url", self.blocklist_url))
            .push(entry("cache-size-mb", self.cache_size_mb))
            .push(entry("default-trackers", self.default_trackers))
            .push(entry("dht-enabled", self.dht_enabled))
            .push(entry("download-dir", self.download_dir))
            .push(entry("download-queue-enabled", self.download_queue_enabled))
            .push(entry("download-queue-size", self.download_queue_size))
            .push(entry("encryption", self.encryption))
            .push(entry("idle-seeding-limit-enabled", self.idle_seeding_limit_enabled))
            .push(entry("idle-seeding-limit", self.idle_seeding_limit))
            .push(entry("incomplete-dir-enabled", self.incomplete_dir_enabled))
            .push(entry("incomplete-dir", self.incomplete_dir))
            .push(entry("lpd-enabled", self.lpd_enabled))
            .push(entry("peer-limit-global", self.peer_limit_global))
            .push(entry("peer-limit-per-torrent", self.peer_limit_per_torrent))
            .push(entry("peer-port-random-on-start", self.peer_port_random_on_start))
            .push(entry("peer-port", self.peer_port))
            .push(entry("pex-enabled", self.pex_enabled))
            .push(entry("port-forwarding-enabled", self.port_forwarding_enabled))
            .push(entry("queue-stalled-enabled", self.queue_stalled_enabled))
            .push(entry("queue-stalled-minutes", self.queue_stalled_minutes))
            .push(entry("rename-partial-files", self.rename_partial_files))
            .push(entry("script-torrent-added-enabled", self.script_torrent_added_enabled))
            .push(entry("script-torrent-added-filename", self.script_torrent_added_filename))
            .push(entry("script-torrent-done-enabled", self.script_torrent_done_enabled))
            .push(entry("script-torrent-done-filename", self.script_torrent_done_filename))
            .push(entry("script-torrent-done-seeding-enabled", self.script_torrent_done_seeding_enabled))
            .push(entry("script-torrent-done-seeding-filename", self.script_torrent_done_seeding_filename))
            .push(entry("seed-queue-enabled", self.seed_queue_enabled))
            .push(entry("seed-queue-size", self.seed_queue_size))
            .push(entry("seed-ratio-limit", self.seed_ratio_limit))
            .push(entry("seed-ratio-limited", self.seed_ratio_limited))
            .push(entry("speed-limit-down", self.speed_limit_down))
            .push(entry("speed-limit-down-enabled", self.speed_limit_down_enabled))
            .push(entry("speed-limit-up", self.speed_limit_up))
            .push(entry("speed-limit-up-enabled", self.speed_limit_up_enabled))
            .push(entry("start-added-torrents", self.start_added_torrents))
            .push(entry("trash-original-torrent-files", self.trash_original_torrent_files))
            .push(entry("utp-enabled", self.utp_enabled))
    }
}

impl ToJson for SessionSetArgs {
    open spec fn encoding(&self) -> JsonView {
        JsonView::Object(written(self.entries()))
    }

    fn to_json(&self) -> (json: Json) {
        let mut object = ObjectWriter::new();
        object.put("alt-speed-down", &self.alt_speed_down);
        object.put("alt-speed-enabled", &self.alt_speed_enabled);
        object.put("alt-speed-time-begin", &self.alt_speed_time_begin);
        object.put("alt-speed-time-delay", &self.alt_speed_time_delay);
        object.put("alt-speed-time-enabled", &self.alt_speed_time_enabled);
        object.put("alt-speed-time-end", &self.alt_speed_time_end);
        object.put("blocklist-enabled", &self.blocklist_enabled);
        object.put("blocklist-url", &self.blocklist_url);
        object.put("cache-size-mb", &self.cache_size_mb);
        object.put("default-trackers", &self.default_trackers);
        object.put("dht-enabled", &self.dht_enabled);
        object.put("download-dir", &self.download_dir);
        object.put("download-queue-enabled", &self.download_queue_enabled);
        object.put("download-queue-size", &self.download_queue_size);
        object.put("encryption", &self.encryption);
        object.put("idle-seeding-limit-enabled", &self.idle_seeding_limit_enabled);
        object.put("idle-seeding-limit", &self.idle_seeding_limit);
        object.put("incomplete-dir-enabled", &self.incomplete_dir_enabled);
        object.put("incomplete-dir", &self.incomplete_dir);
        object.put("lpd-enabled", &self.lpd_enabled);
        object.put("peer-limit-global", &self.peer_limit_global);
        object.put("peer-limit-per-torrent", &self.peer_limit_per_torrent);
        object.put("peer-port-random-on-start", &self.peer_port_random_on_start);
        object.put("peer-port", &self.peer_port);
        object.put("pex-enabled", &self.pex_enabled);
        object.put("port-forwarding-enabled", &self.port_forwarding_enabled);
        object.put("queue-stalled-enabled", &self.queue_stalled_enabled);
        object.put("queue-stalled-minutes", &self.queue_stalled_minutes);
        object.put("rename-partial-files", &self.rename_partial_files);
        object.put("script-torrent-added-enabled", &self.script_torrent_added_enabled);
        object.put("script-torrent-added-filename", &self.script_torrent_added_filename);
        object.put("script-torrent-done-enabled", &self.script_torrent_done_enabled);
        object.put("script-torrent-done-filename", &self.script_torrent_done_filename);
        object.put("script-torrent-done-seeding-enabled", &self.script_torrent_done_seeding_enabled);
        object.put("script-torrent-done-seeding-filename", &self.script_torrent_done_seeding_filename);
        object.put("seed-queue-enabled", &self.seed_queue_enabled);
        object.put("seed-queue-size", &self.seed_queue_size);
        object.put("seed-ratio-limit", &self.seed_ratio_limit);
        object.put("seed-ratio-limited", &self.seed_ratio_limited);
        object.put("speed-limit-down", &self.speed_limit_down);
        object.put("speed-limit-down-enabled", &self.speed_limit_down_enabled);
        object.put("speed-limit-up", &self.speed_limit_up);
        object.put("speed-limit-up-enabled", &self.speed_limit_up_enabled);
        object.put("start-added-torrents", &self.start_added_torrents);
        object.put("trash-original-torrent-files", &self.trash_original_torrent_files);
        object.put("utp-enabled", &self.utp_enabled);
        object.finish()
    }
}

impl SessionSetArgs {
    /// The patch that changes nothing: no field is set.
    pub open spec fn unset() -> SessionSetArgs {
        SessionSetArgs {
            alt_speed_down: None,
            alt_speed_enabled: None,
            alt_speed_time_begin: None,
            alt_speed_time_delay: None,
            alt_speed_time_enabled: None,
            alt_speed_time_end: None,
            blocklist_enabled: None,
            blocklist_url: None,
            cache_size_mb: None,
            default_trackers: None,
            dht_enabled: None,
            download_dir: None,
            download_queue_enabled: None,
            download_queue_size: None,
            encryption: None,
            idle_seeding_limit_enabled: None,
            idle_seeding_limit: None,
            incomplete_dir_enabled: None,
            incomplete_dir: None,
            lpd_enabled: None,
            peer_limit_global: None,
            peer_limit_per_torrent: None,
            peer_port_random_on_start: None,
            peer_port: None,
            pex_enabled: None,
            port_forwarding_enabled: None,
            queue_stalled_enabled: None,
            queue_stalled_minutes: None,
            rename_partial_files: None,
            script_torrent_added_enabled: None,
            script_torrent_added_filename: None,
            script_torrent_done_enabled: None,
            script_torrent_done_filename: None,
            script_torrent_done_seeding_enabled: None,
            script_torrent_done_seeding_filename: None,
            seed_queue_enabled: None,
            seed_queue_size: None,
            seed_ratio_limit: None,
            seed_ratio_limited: None,
            speed_limit_down: None,
            speed_limit_down_enabled: None,
            speed_limit_up: None,
            speed_limit_up_enabled: None,
            start_added_torrents: None,
            trash_original_torrent_files: None,
            utp_enabled: None,
        }
    }
}

impl Default for SessionSetArgs {
    /// The patch that changes nothing.
    fn default() -> (patch: SessionSetArgs)
        ensures
            patch == SessionSetArgs::unset(),
    {
        SessionSetArgs {
            alt_speed_down: None,
            alt_speed_enabled: None,
            alt_speed_time_begin: None,
            alt_speed_time_delay: None,
            alt_speed_time_enabled: None,
            alt_speed_time_end: None,
            blocklist_enabled: None,
            blocklist_url: None,
            cache_size_mb: None,
            default_trackers: None,
            dht_enabled: None,
            download_dir: None,
            download_queue_enabled: None,
            download_queue_size: None,
            encryption: None,
            idle_seeding_limit_enabled: None,
            idle_seeding_limit: None,
            incomplete_dir_enabled: None,
            incomplete_dir: None,
            lpd_enabled: None,
            peer_limit_global: None,
            peer_limit_per_torrent: None,
            peer_port_random_on_start: None,
            peer_port: None,
            pex_enabled: None,
            port_forwarding_enabled: None,
            queue_stalled_enabled: None,
            queue_stalled_minutes: None,
            rename_partial_files: None,
            script_torrent_added_enabled: None,
            script_torrent_added_filename: None,
            script_torrent_done_enabled: None,
            script_torrent_done_filename: None,
            script_torrent_done_seeding_enabled: None,
            script_torrent_done_seeding_filename: None,
            seed_queue_enabled: None,
            seed_queue_size: None,
            seed_ratio_limit: None,
            seed_ratio_limited: None,
            speed_limit_down: None,
            speed_limit_down_enabled: None,
            speed_limit_up: None,
            speed_limit_up_enabled: None,
            start_added_torrents: None,
            trash_original_torrent_files: None,
            utp_enabled: None,
        }
    }
}

/// What a query for torrents asks: which fields, and of which torrents. Left unset, `ids`
/// asks for every torrent.
#[derive(Debug, Clone)]
pub struct TorrentGetArgs {
    pub fields: Option<Vec<TorrentGetField>>,
    pub ids: Option<Vec<Id>>,
}

impl TorrentGetArgs {
    /// The fields in the order in which they are written, each with its key.
    pub open spec fn entries(&self) -> Seq<Entry> {
        Seq::empty()
            .push(entry("fields", self.fields))
            .push(entry("ids", self.ids))
    }
}

impl ToJson for TorrentGetArgs {
    open spec fn encoding(&self) -> JsonView {
        JsonView::Object(written(self.entries()))
    }

    fn to_json(&self) -> (json: Json) {
        let mut object = ObjectWriter::new();
        object.put("fields", &self.fields);
        object.put("ids", &self.ids);
        object.finish()
    }
}

impl TorrentGetArgs {
    /// The patch that changes nothing: no field is set.
    pub open spec fn unset() -> TorrentGetArgs {
        TorrentGetArgs {
            fields: None,
            ids: None,
        }
    }
}

impl Default for TorrentGetArgs {
    /// The patch that changes nothing.
    fn default() -> (patch: TorrentGetArgs)
        ensures
            patch == TorrentGetArgs::unset(),
    {
        TorrentGetArgs {
            fields: None,
            ids: None,
        }
    }
}

/// A torrent to add, by the name of a file or an address in `filename` or by its content in
/// `metainfo`, with what is to hold of it from the start.
#[derive(Debug, Clone)]
pub struct TorrentAddArgs {
    pub cookies: Option<String>,
    pub download_dir: Option<String>,
    /// The name of a torrent file or the address of one.
    pub filename: Option<String>,
    /// The content of a torrent file, in base64.
    pub metainfo: Option<String>,
    pub paused: Option<bool>,
    pub peer_limit: Option<i64>,
    pub bandwidth_priority: Option<i64>,
    pub files_wanted: Option<Vec<i32>>,
    pub files_unwanted: Option<Vec<i32>>,
    pub priority_high: Option<Vec<i32>>,
    pub priority_low: Option<Vec<i32>>,
    pub priority_normal: Option<Vec<i32>>,
    pub labels: Option<Vec<String>>,
}

impl TorrentAddArgs {
    /// The fields in the order in which they are written, each with its key.
    pub open spec fn entries(&self) -> Seq<Entry> {
        Seq::empty()
            .push(entry("cookies", self.cookies))
            .push(entry("download-dir", self.download_dir))
            .push(entry("filename", self.filename))
            .push(entry("metainfo", self.metainfo))
            .push(entry("paused", self.paused))
            .push(entry("peer-limit", self.peer_limit))
            .push(entry("bandwidthPriority", self.bandwidth_priority))
            .push(entry("files-wanted", self.files_wanted))
            .push(entry("files-unwanted", self.files_unwanted))
            .push(entry("priority-high", self.priority_high))
            .push(entry("priority-low", self.priority_low))
            .push(entry("priority-normal", self.priority_normal))
            .push(entry("labels", self.labels))
    }
}

impl ToJson for TorrentAddArgs {
    open spec fn encoding(&self) -> JsonView {
        JsonView::Object(written(self.entries()))
    }

    fn to_json(&self) -> (json: Json) {
        let mut object = ObjectWriter::new();
        object.put("cookies", &self.cookies);
        object.put("download-dir", &self.download_dir);
        object.put("filename", &self.filename);
        object.put("metainfo", &self.metainfo);
        object.put("paused", &self.paused);
        object.put("peer-limit", &self.peer_limit);
        object.put("bandwidthPriority", &self.bandwidth_priority);
        object.put("files-wanted", &self.files_wanted);
        object.put("files-unwanted", &self.files_unwanted);
        object.put("priority-high", &self.priority_high);
        object.put("priority-low", &self.priority_low);
        object.put("priority-normal", &self.priority_normal);
        object.put("labels", &self.labels);
        object.finish()
    }
}

impl TorrentAddArgs {
    /// The patch that changes nothing: no field is set.
    pub open spec fn unset() -> TorrentAddArgs {
        TorrentAddArgs {
            cookies: None,
            download_dir: None,
            filename: None,
            metainfo: None,
            paused: None,
            peer_limit: None,
            bandwidth_priority: None,
            files_wanted: None,
            files_unwanted: None,
            priority_high: None,
            priority_low: None,
            priority_normal: None,
            labels: None,
        }
    }
}

impl Default for TorrentAddArgs {
    /// The patch that changes nothing.
    fn default() -> (patch: TorrentAddArgs)
        ensures
            patch == TorrentAddArgs::unset(),
    {
        TorrentAddArgs {
            cookies: None,
            download_dir: None,
            filename: None,
            metainfo: None,
            paused: None,
            peer_limit: None,
            bandwidth_priority: None,
            files_wanted: None,
            files_unwanted: None,
            priority_high: None,
            priority_low: None,
            priority_normal: None,
            labels: None,
        }
    }
}

/// A change to torrents. Only the fields that are set go on the wire: the daemon leaves alone
/// what the message does not name.
#[derive(Debug, Clone)]
pub struct TorrentSetArgs {
    pub bandwidth_priority: Option<i64>,
    pub download_limit: Option<i32>,
    pub download_limited: Option<bool>,
    pub files_wanted: Option<Vec<i32>>,
    pub files_unwanted: Option<Vec<i32>>,
    pub honors_session_limits: Option<bool>,
    pub ids: Option<Vec<Id>>,
    pub labels: Option<Vec<String>>,
    pub location: Option<String>,
    pub peer_limit: Option<u16>,
    pub priority_high: Option<Vec<i32>>,
    pub priority_low: Option<Vec<i32>>,
    pub priority_normal: Option<Vec<i32>>,
    pub queue_position: Option<i32>,
    pub seed_idle_limit: Option<i32>,
    pub seed_idle_mode: Option<i32>,
    /// The ratio at which seeding stops, as a JSON number.
    pub seed_ratio_limit: Option<Number>,
    pub seed_ratio_mode: Option<i32>,
    pub tracker_add: Option<Vec<String>>,
    pub tracker_remove: Option<Vec<i64>>,
    pub upload_limit: Option<i32>,
    pub upload_limited: Option<bool>,
}

impl TorrentSetArgs {
    /// The fields in the order in which they are written, each with its key.
    pub open spec fn entries(&self) -> Seq<Entry> {
        Seq::empty()
            .push(entry("bandwidthPriority", self.bandwidth_priority))
            .push(entry("downloadLimit", self.download_limit))
            .push(entry("downloadLimited", self.download_limited))
            .push(entry("files-wanted", self.files_wanted))
            .push(entry("files-unwanted", self.files_unwanted))
            .push(entry("honorsSessionLimits", self.honors_session_limits))
            .push(entry("ids", self.ids))
            .push(entry("labels", self.labels))
            .push(entry("location", self.location))
            .push(entry("peer-limit", self.peer_limit))
            .push(entry("priority-high", self.priority_high))
            .push(entry("priority-low", self.priority_low))
            .push(entry("priority-normal", self.priority_normal))
            .push(entry("queuePosition", self.queue_position))
            .push(entry("seedIdleLimit", self.seed_idle_limit))
            .push(entry("seedIdleMode", self.seed_idle_mode))
            .push(entry("seedRatioLimit", self.seed_ratio_limit))
            .push(entry("seedRatioMode", self.seed_ratio_mode))
            .push(entry("trackerAdd", self.tracker_add))
            .push(entry("trackerRemove", self.tracker_remove))
            .push(entry("uploadLimit", self.upload_limit))
            .push(entry("uploadLimited", self.upload_limited))
    }
}

impl ToJson for TorrentSetArgs {
    open spec fn encoding(&self) -> JsonView {
        JsonView::Object(written(self.entries()))
    }

    fn to_json(&self) -> (json: Json) {
        let mut object = ObjectWriter::new();
        object.put("bandwidthPriority", &self.bandwidth_priority);
        object.put("downloadLimit", &self.download_limit);
        object.put("downloadLimited", &self.download_limited);
        object.put("files-wanted", &self.files_wanted);
        object.put("files-unwanted", &self.files_unwanted);
        object.put("honorsSessionLimits", &self.honors_session_limits);
        object.put("ids", &self.ids);
        object.put("labels", &self.labels);
        object.put("location", &self.location);
        object.put("peer-limit", &self.peer_limit);
        object.put("priority-high", &self.priority_high);
        object.put("priority-low", &self.priority_low);
        object.put("priority-normal", &self.priority_normal);
        object.put("queuePosition", &self.queue_position);
        object.put("seedIdleLimit", &self.seed_idle_limit);
        object.put("seedIdleMode", &self.seed_idle_mode);
        object.put("seedRatioLimit", &self.seed_ratio_limit);
        object.put("seedRatioMode", &self.seed_ratio_mode);
        object.put("trackerAdd", &self.tracker_add);
        object.put("trackerRemove", &self.tracker_remove);
        object.put("uploadLimit", &self.upload_limit);
        object.put("uploadLimited", &self.upload_limited);
        object.finish()
    }
}

impl TorrentSetArgs {
    /// The patch that changes nothing: no field is set.
    pub open spec fn unset() -> TorrentSetArgs {
        TorrentSetArgs {
            bandwidth_priority: None,
            download_limit: None,
            download_limited: None,
            files_wanted: None,
            files_unwanted: None,
            honors_session_limits: None,
            ids: None,
            labels: None,
            location: None,
            peer_limit: None,
            priority_high: None,
            priority_low: None,
            priority_normal: None,
            queue_position: None,
            seed_idle_limit: None,
            seed_idle_mode: None,
            seed_ratio_limit: None,
            seed_ratio_mode: None,
            tracker_add: None,
            tracker_remove: None,
            upload_limit: None,
            upload_limited: None,
        }
    }
}

impl Default for TorrentSetArgs {
    /// The patch that changes nothing.
    fn default() -> (patch: TorrentSetArgs)
        ensures
            patch == TorrentSetArgs::unset(),
    {
        TorrentSetArgs {
            bandwidth_priority: None,
            download_limit: None,
            download_limited: None,
            files_wanted: None,
            files_unwanted: None,
            honors_session_limits: None,
            ids: None,
            labels: None,
            location: None,
            peer_limit: None,
            priority_high: None,
            priority_low: None,
            priority_normal: None,
            queue_position: None,
            seed_idle_limit: None,
            seed_idle_mode: None,
            seed_ratio_limit: None,
            seed_ratio_mode: None,
            tracker_add: None,
            tracker_remove: None,
            upload_limit: None,
            upload_limited: None,
        }
    }
}

/// The new name of a file or directory of a torrent.
#[derive(Debug, Clone)]
pub struct TorrentRenamePathArgs {
    pub ids: Vec<Id>,
    /// The path as it is now, within the torrent.
    pub path: String,
    /// The name that the last part of the path gets.
    pub name: String,
}

impl TorrentRenamePathArgs {
    /// The fields in the order in which they are written, each with its key.
    pub open spec fn entries(&self) -> Seq<Entry> {
        Seq::empty()
            .push(always("ids", self.ids))
            .push(always("path", self.path))
            .push(always("name", self.name))
    }
}

impl ToJson for TorrentRenamePathArgs {
    open spec fn encoding(&self) -> JsonView {
        JsonView::Object(written(self.entries()))
    }

    fn to_json(&self) -> (json: Json) {
        let mut object = ObjectWriter::new();
        object.put_always("ids", &self.ids);
        object.put_always("path", &self.path);
        object.put_always("name", &self.name);
        object.finish()
    }
}

/// A call of a method of the daemon: its name, its arguments where it takes any, and a tag that
/// the daemon hands back with the answer where the caller sets one.
#[derive(Debug, Clone)]
pub struct RpcRequest<A: ToJson> {
    pub method: String,
    pub arguments: Option<A>,
    pub tag: Option<i64>,
}

impl<A: ToJson> RpcRequest<A> {
    /// The fields in the order in which they are written, each with its key.
    pub open spec fn entries(&self) -> Seq<Entry> {
        Seq::empty()
            .push(always("method", self.method))
            .push(entry("arguments", self.arguments))
            .push(entry("tag", self.tag))
    }
}

impl<A: ToJson> ToJson for RpcRequest<A> {
    open spec fn encoding(&self) -> JsonView {
        JsonView::Object(written(self.entries()))
    }

    fn to_json(&self) -> (json: Json) {
        let mut object = ObjectWriter::new();
        object.put_always("method", &self.method);
        object.put("arguments", &self.arguments);
        object.put("tag", &self.tag);
        object.finish()
    }
}

} // verus!
