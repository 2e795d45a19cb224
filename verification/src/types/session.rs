//! What the daemon answers about the session as a whole.

use crate::decode::{
    members_of, optional, optional_defect, optional_holds, required, required_defect,
    required_holds, FromJson,
};
use crate::error::{DecodeError, Finding};
use crate::json::{Json, JsonView, Number};
use crate::types::response::RpcResponseArgument;
use crate::types::seal::Sealed;
use crate::types::Encryption;
use semver::Version;
use vstd::prelude::*;

verus! {

/// The settings of the session, as the daemon reports them.
#[derive(Debug, Clone)]
pub struct SessionGet {
    pub alt_speed_down: i64,
    pub alt_speed_enabled: bool,
    pub alt_speed_time_begin: i64,
    pub alt_speed_time_delay: i64,
    pub alt_speed_time_enabled: bool,
    pub alt_speed_time_end: i64,
    pub blocklist_enabled: bool,
    pub blocklist_size: usize,
    pub blocklist_url: String,
    pub cache_size_mb: isize,
    pub config_dir: String,
    pub default_trackers: Vec<String>,
    pub dht_enabled: bool,
    pub download_dir: String,
    pub download_queue_enabled: bool,
    pub download_queue_size: isize,
    pub encryption: Encryption,
    pub idle_seeding_limit_enabled: bool,
    pub idle_seeding_limit: isize,
    pub incomplete_dir_enabled: bool,
    pub incomplete_dir: String,
    pub lpd_enabled: bool,
    pub peer_limit_global: isize,
    pub peer_limit_per_torrent: isize,
    pub peer_port_random_on_start: bool,
    pub peer_port: u16,
    pub pex_enabled: bool,
    pub port_forwarding_enabled: bool,
    pub queue_stalled_enabled: bool,
    pub queue_stalled_minutes: isize,
    pub rename_partial_files: bool,
    pub rpc_version: i32,
    pub rpc_version_minimum: i32,
    /// The version of the protocol, read by `semver`.
    pub rpc_version_semver: Version,
    pub script_torrent_added_enabled: bool,
    pub script_torrent_added_filename: String,
    pub script_torrent_done_enabled: bool,
    pub script_torrent_done_filename: String,
    pub script_torrent_done_seeding_enabled: bool,
    pub script_torrent_done_seeding_filename: String,
    pub seed_queue_enabled: bool,
    pub seed_queue_size: isize,
    /// The ratio at which seeding stops, as the number stands on the wire.
    pub seed_ratio_limit: Number,
    pub seed_ratio_limited: bool,
    pub speed_limit_down: isize,
    pub speed_limit_down_enabled: bool,
    pub speed_limit_up: isize,
    pub speed_limit_up_enabled: bool,
    pub start_added_torrents: bool,
    pub trash_original_torrent_files: bool,
    pub utp_enabled: bool,
    pub version: String,
}

impl FromJson for SessionGet {
    open spec fn defect(v: JsonView, key: &'static str) -> Option<DecodeError> {
        match v {
            JsonView::Object(m) => required_defect::<i64>(m, "alt-speed-down")
                .otherwise(required_defect::<bool>(m, "alt-speed-enabled"))
                .otherwise(required_defect::<i64>(m, "alt-speed-time-begin"))
                .otherwise(required_defect::<i64>(m, "alt-speed-time-delay"))
                .otherwise(required_defect::<bool>(m, "alt-speed-time-enabled"))
                .otherwise(required_defect::<i64>(m, "alt-speed-time-end"))
                .otherwise(required_defect::<bool>(m, "blocklist-enabled"))
                .otherwise(required_defect::<usize>(m, "blocklist-size"))
                .otherwise(required_defect::<String>(m, "blocklist-url"))
                .otherwise(required_defect::<isize>(m, "cache-size-mb"))
                .otherwise(required_defect::<String>(m, "config-dir"))
                .otherwise(required_defect::<Vec<String>>(m, "default-trackers"))
                .otherwise(required_defect::<bool>(m, "dht-enabled"))
                .otherwise(required_defect::<String>(m, "download-dir"))
                .otherwise(required_defect::<bool>(m, "download-queue-enabled"))
                .otherwise(required_defect::<isize>(m, "download-queue-size"))
                .otherwise(required_defect::<Encryption>(m, "encryption"))
                .otherwise(required_defect::<bool>(m, "idle-seeding-limit-enabled"))
                .otherwise(required_defect::<isize>(m, "idle-seeding-limit"))
                .otherwise(required_defect::<bool>(m, "incomplete-dir-enabled"))
                .otherwise(required_defect::<String>(m, "incomplete-dir"))
                .otherwise(required_defect::<bool>(m, "lpd-enabled"))
                .otherwise(required_defect::<isize>(m, "peer-limit-global"))
                .otherwise(required_defect::<isize>(m, "peer-limit-per-torrent"))
                .otherwise(required_defect::<bool>(m, "peer-port-random-on-start"))
                .otherwise(required_defect::<u16>(m, "peer-port"))
                .otherwise(required_defect::<bool>(m, "pex-enabled"))
                .otherwise(required_defect::<bool>(m, "port-forwarding-enabled"))
                .otherwise(required_defect::<bool>(m, "queue-stalled-enabled"))
                .otherwise(required_defect::<isize>(m, "queue-stalled-minutes"))
                .otherwise(required_defect::<bool>(m, "rename-partial-files"))
                .otherwise(required_defect::<i32>(m, "rpc-version"))
                .otherwise(required_defect::<i32>(m, "rpc-version-minimum"))
                .otherwise(required_defect::<Version>(m, "rpc-version-semver"))
                .otherwise(required_defect::<bool>(m, "script-torrent-added-enabled"))
                .otherwise(required_defect::<String>(m, "script-torrent-added-filename"))
                .otherwise(required_defect::<bool>(m, "script-torrent-done-enabled"))
                .otherwise(required_defect::<String>(m, "script-torrent-done-filename"))
                .otherwise(required_defect::<bool>(m, "script-torrent-done-seeding-enabled"))
                .otherwise(required_defect::<String>(m, "script-torrent-done-seeding-filename"))
                .otherwise(required_defect::<bool>(m, "seed-queue-enabled"))
                .otherwise(required_defect::<isize>(m, "seed-queue-size"))
                .otherwise(required_defect::<Number>(m, "seed-ratio-limit"))
                .otherwise(required_defect::<bool>(m, "seed-ratio-limited"))
                .otherwise(required_defect::<isize>(m, "speed-limit-down"))
                .otherwise(required_defect::<bool>(m, "speed-limit-down-enabled"))
                .otherwise(required_defect::<isize>(m, "speed-limit-up"))
                .otherwise(required_defect::<bool>(m, "speed-limit-up-enabled"))
                .otherwise(required_defect::<bool>(m, "start-added-torrents"))
                .otherwise(required_defect::<bool>(m, "trash-original-torrent-files"))
                .otherwise(required_defect::<bool>(m, "utp-enabled"))
                .otherwise(required_defect::<String>(m, "version")),
            _ => Some(DecodeError::WrongType(key)),
        }
    }

    open spec fn encoded_by(&self, v: JsonView) -> bool {
        &&& v matches JsonView::Object(m)
        &&& required_holds(m, "alt-speed-down", self.alt_speed_down)
        &&& required_holds(m, "alt-speed-enabled", self.alt_speed_enabled)
        &&& required_holds(m, "alt-speed-time-begin", self.alt_speed_time_begin)
        &&& required_holds(m, "alt-speed-time-delay", self.alt_speed_time_delay)
        &&& required_holds(m, "alt-speed-time-enabled", self.alt_speed_time_enabled)
        &&& required_holds(m, "alt-speed-time-end", self.alt_speed_time_end)
        &&& required_holds(m, "blocklist-enabled", self.blocklist_enabled)
        &&& required_holds(m, "blocklist-size", self.blocklist_size)
        &&& required_holds(m, "blocklist-url", self.blocklist_url)
        &&& required_holds(m, "cache-size-mb", self.cache_size_mb)
        &&& required_holds(m, "config-dir", self.config_dir)
        &&& required_holds(m, "default-trackers", self.default_trackers)
        &&& required_holds(m, "dht-enabled", self.dht_enabled)
        &&& required_holds(m, "download-dir", self.download_dir)
        &&& required_holds(m, "download-queue-enabled", self.download_queue_enabled)
        &&& required_holds(m, "download-queue-size", self.download_queue_size)
        &&& required_holds(m, "encryption", self.encryption)
        &&& required_holds(m, "idle-seeding-limit-enabled", self.idle_seeding_limit_enabled)
        &&& required_holds(m, "idle-seeding-limit", self.idle_seeding_limit)
        &&& required_holds(m, "incomplete-dir-enabled", self.incomplete_dir_enabled)
        &&& required_holds(m, "incomplete-dir", self.incomplete_dir)
        &&& required_holds(m, "lpd-enabled", self.lpd_enabled)
        &&& required_holds(m, "peer-limit-global", self.peer_limit_global)
        &&& required_holds(m, "peer-limit-per-torrent", self.peer_limit_per_torrent)
        &&& required_holds(m, "peer-port-random-on-start", self.peer_port_random_on_start)
        &&& required_holds(m, "peer-port", self.peer_port)
        &&& required_holds(m, "pex-enabled", self.pex_enabled)
        &&& required_holds(m, "port-forwarding-enabled", self.port_forwarding_enabled)
        &&& required_holds(m, "queue-stalled-enabled", self.queue_stalled_enabled)
        &&& required_holds(m, "queue-stalled-minutes", self.queue_stalled_minutes)
        &&& required_holds(m, "rename-partial-files", self.rename_partial_files)
        &&& required_holds(m, "rpc-version", self.rpc_version)
        &&& required_holds(m, "rpc-version-minimum", self.rpc_version_minimum)
        &&& required_holds(m, "rpc-version-semver", self.rpc_version_semver)
        &&& required_holds(m, "script-torrent-added-enabled", self.script_torrent_added_enabled)
        &&& required_holds(m, "script-torrent-added-filename", self.script_torrent_added_filename)
        &&& required_holds(m, "script-torrent-done-enabled", self.script_torrent_done_enabled)
        &&& required_holds(m, "script-torrent-done-filename", self.script_torrent_done_filename)
        &&& required_holds(m, "script-torrent-done-seeding-enabled", self.script_torrent_done_seeding_enabled)
        &&& required_holds(m, "script-torrent-done-seeding-filename", self.script_torrent_done_seeding_filename)
        &&& required_holds(m, "seed-queue-enabled", self.seed_queue_enabled)
        &&& required_holds(m, "seed-queue-size", self.seed_queue_size)
        &&& required_holds(m, "seed-ratio-limit", self.seed_ratio_limit)
        &&& required_holds(m, "seed-ratio-limited", self.seed_ratio_limited)
        &&& required_holds(m, "speed-limit-down", self.speed_limit_down)
        &&& required_holds(m, "speed-limit-down-enabled", self.speed_limit_down_enabled)
        &&& required_holds(m, "speed-limit-up", self.speed_limit_up)
        &&& required_holds(m, "speed-limit-up-enabled", self.speed_limit_up_enabled)
        &&& required_holds(m, "start-added-torrents", self.start_added_torrents)
        &&& required_holds(m, "trash-original-torrent-files", self.trash_original_torrent_files)
        &&& required_holds(m, "utp-enabled", self.utp_enabled)
        &&& required_holds(m, "version", self.version)
    }

    fn decode(json: &Json, key: &'static str) -> (decoded: Result<SessionGet, DecodeError>) {
        let m = members_of(json, key)?;
        Ok(
            SessionGet {
                alt_speed_down: required(m, "alt-speed-down")?,
                alt_speed_enabled: required(m, "alt-speed-enabled")?,
                alt_speed_time_begin: required(m, "alt-speed-time-begin")?,
                alt_speed_time_delay: required(m, "alt-speed-time-delay")?,
                alt_speed_time_enabled: required(m, "alt-speed-time-enabled")?,
                alt_speed_time_end: required(m, "alt-speed-time-end")?,
                blocklist_enabled: required(m, "blocklist-enabled")?,
                blocklist_size: required(m, "blocklist-size")?,
                blocklist_url: required(m, "blocklist-url")?,
                cache_size_mb: required(m, "cache-size-mb")?,
                config_dir: required(m, "config-dir")?,
                default_trackers: required(m, "default-trackers")?,
                dht_enabled: required(m, "dht-enabled")?,
                download_dir: required(m, "download-dir")?,
                download_queue_enabled: required(m, "download-queue-enabled")?,
                download_queue_size: required(m, "download-queue-size")?,
                encryption: required(m, "encryption")?,
                idle_seeding_limit_enabled: required(m, "idle-seeding-limit-enabled")?,
                idle_seeding_limit: required(m, "idle-seeding-limit")?,
                incomplete_dir_enabled: required(m, "incomplete-dir-enabled")?,
                incomplete_dir: required(m, "incomplete-dir")?,
                lpd_enabled: required(m, "lpd-enabled")?,
                peer_limit_global: required(m, "peer-limit-global")?,
                peer_limit_per_torrent: required(m, "peer-limit-per-torrent")?,
                peer_port_random_on_start: required(m, "peer-port-random-on-start")?,
                peer_port: required(m, "peer-port")?,
                pex_enabled: required(m, "pex-enabled")?,
                port_forwarding_enabled: required(m, "port-forwarding-enabled")?,
                queue_stalled_enabled: required(m, "queue-stalled-enabled")?,
                queue_stalled_minutes: required(m, "queue-stalled-minutes")?,
                rename_partial_files: required(m, "rename-partial-files")?,
                rpc_version: required(m, "rpc-version")?,
                rpc_version_minimum: required(m, "rpc-version-minimum")?,
                rpc_version_semver: required(m, "rpc-version-semver")?,
                script_torrent_added_enabled: required(m, "script-torrent-added-enabled")?,
                script_torrent_added_filename: required(m, "script-torrent-added-filename")?,
                script_torrent_done_enabled: required(m, "script-torrent-done-enabled")?,
                script_torrent_done_filename: required(m, "script-torrent-done-filename")?,
                script_torrent_done_seeding_enabled: required(m, "script-torrent-done-seeding-enabled")?,
                script_torrent_done_seeding_filename: required(m, "script-torrent-done-seeding-filename")?,
                seed_queue_enabled: required(m, "seed-queue-enabled")?,
                seed_queue_size: required(m, "seed-queue-size")?,
                seed_ratio_limit: required(m, "seed-ratio-limit")?,
                seed_ratio_limited: required(m, "seed-ratio-limited")?,
                speed_limit_down: required(m, "speed-limit-down")?,
                speed_limit_down_enabled: required(m, "speed-limit-down-enabled")?,
                speed_limit_up: required(m, "speed-limit-up")?,
                speed_limit_up_enabled: required(m, "speed-limit-up-enabled")?,
                start_added_torrents: required(m, "start-added-torrents")?,
                trash_original_torrent_files: required(m, "trash-original-torrent-files")?,
                utp_enabled: required(m, "utp-enabled")?,
                version: required(m, "version")?,
            },
        )
    }
}

impl Sealed for SessionGet {

}

impl RpcResponseArgument for SessionGet {

}

/// The counts and speeds of the session, with the totals of this session and of all.
#[derive(Debug, Clone)]
pub struct SessionStats {
    pub torrent_count: i32,
    pub active_torrent_count: i32,
    pub paused_torrent_count: i32,
    pub download_speed: i64,
    pub upload_speed: i64,
    pub current_stats: Stats,
    pub cumulative_stats: Stats,
}

impl FromJson for SessionStats {
    open spec fn defect(v: JsonView, key: &'static str) -> Option<DecodeError> {
        match v {
            JsonView::Object(m) => required_defect::<i32>(m, "torrentCount")
                .otherwise(required_defect::<i32>(m, "activeTorrentCount"))
                .otherwise(required_defect::<i32>(m, "pausedTorrentCount"))
                .otherwise(required_defect::<i64>(m, "downloadSpeed"))
                .otherwise(required_defect::<i64>(m, "uploadSpeed"))
                .otherwise(required_defect::<Stats>(m, "current-stats"))
                .otherwise(required_defect::<Stats>(m, "cumulative-stats")),
            _ => Some(DecodeError::WrongType(key)),
        }
    }

    open spec fn encoded_by(&self, v: JsonView) -> bool {
        &&& v matches JsonView::Object(m)
        &&& required_holds(m, "torrentCount", self.torrent_count)
        &&& required_holds(m, "activeTorrentCount", self.active_torrent_count)
        &&& required_holds(m, "pausedTorrentCount", self.paused_torrent_count)
        &&& required_holds(m, "downloadSpeed", self.download_speed)
        &&& required_holds(m, "uploadSpeed", self.upload_speed)
        &&& required_holds(m, "current-stats", self.current_stats)
        &&& required_holds(m, "cumulative-stats", self.cumulative_stats)
    }

    fn decode(json: &Json, key: &'static str) -> (decoded: Result<SessionStats, DecodeError>) {
        let m = members_of(json, key)?;
        Ok(
            SessionStats {
                torrent_count: required(m, "torrentCount")?,
                active_torrent_count: required(m, "activeTorrentCount")?,
                paused_torrent_count: required(m, "pausedTorrentCount")?,
                download_speed: required(m, "downloadSpeed")?,
                upload_speed: required(m, "uploadSpeed")?,
                current_stats: required(m, "current-stats")?,
                cumulative_stats: required(m, "cumulative-stats")?,
            },
        )
    }
}

impl Sealed for SessionStats {

}

impl RpcResponseArgument for SessionStats {

}

/// Transfer totals, of the running session or of all sessions.
#[derive(Debug, Clone)]
pub struct Stats {
    pub files_added: i32,
    pub downloaded_bytes: i64,
    pub uploaded_bytes: i64,
    pub seconds_active: i64,
    pub session_count: Option<i32>,
}

impl FromJson for Stats {
    open spec fn defect(v: JsonView, key: &'static str) -> Option<DecodeError> {
        match v {
            JsonView::Object(m) => required_defect::<i32>(m, "filesAdded")
                .otherwise(required_defect::<i64>(m, "downloadedBytes"))
                .otherwise(required_defect::<i64>(m, "uploadedBytes"))
                .otherwise(required_defect::<i64>(m, "secondsActive"))
                .otherwise(optional_defect::<i32>(m, "sessionCount")),
            _ => Some(DecodeError::WrongType(key)),
        }
    }

    open spec fn encoded_by(&self, v: JsonView) -> bool {
        &&& v matches JsonView::Object(m)
        &&& required_holds(m, "filesAdded", self.files_added)
        &&& required_holds(m, "downloadedBytes", self.downloaded_bytes)
        &&& required_holds(m, "uploadedBytes", self.uploaded_bytes)
        &&& required_holds(m, "secondsActive", self.seconds_active)
        &&& optional_holds(m, "sessionCount", self.session_count)
    }

    fn decode(json: &Json, key: &'static str) -> (decoded: Result<Stats, DecodeError>) {
        let m = members_of(json, key)?;
        Ok(
            Stats {
                files_added: required(m, "filesAdded")?,
                downloaded_bytes: required(m, "downloadedBytes")?,
                uploaded_bytes: required(m, "uploadedBytes")?,
                seconds_active: required(m, "secondsActive")?,
                session_count: optional(m, "sessionCount")?,
            },
        )
    }
}

/// The empty answer to closing the session.
#[derive(Debug, Clone)]
pub struct SessionClose {
}

impl FromJson for SessionClose {
    open spec fn defect(v: JsonView, key: &'static str) -> Option<DecodeError> {
        match v {
            JsonView::Object(_) => None,
            _ => Some(DecodeError::WrongType(key)),
        }
    }

    open spec fn encoded_by(&self, v: JsonView) -> bool {
        v is Object
    }

    fn decode(json: &Json, key: &'static str) -> (decoded: Result<SessionClose, DecodeError>) {
        members_of(json, key)?;
        Ok(SessionClose {  })
    }
}

impl Sealed for SessionClose {

}

impl RpcResponseArgument for SessionClose {

}

/// The size of the blocklist after an update.
#[derive(Debug, Clone)]
pub struct BlocklistUpdate {
    pub blocklist_size: Option<i32>,
}

impl FromJson for BlocklistUpdate {
    open spec fn defect(v: JsonView, key: &'static str) -> Option<DecodeError> {
        match v {
            JsonView::Object(m) => optional_defect::<i32>(m, "blocklist-size"),
            _ => Some(DecodeError::WrongType(key)),
        }
    }

    open spec fn encoded_by(&self, v: JsonView) -> bool {
        &&& v matches JsonView::Object(m)
        &&& optional_holds(m, "blocklist-size", self.blocklist_size)
    }

    fn decode(json: &Json, key: &'static str) -> (decoded: Result<BlocklistUpdate, DecodeError>) {
        let m = members_of(json, key)?;
        Ok(
            BlocklistUpdate {
                blocklist_size: optional(m, "blocklist-size")?,
            },
        )
    }
}

impl Sealed for BlocklistUpdate {

}

impl RpcResponseArgument for BlocklistUpdate {

}

/// The free space in a directory.
#[derive(Debug, Clone)]
pub struct FreeSpace {
    pub path: String,
    pub size_bytes: i64,
}

impl FromJson for FreeSpace {
    open spec fn defect(v: JsonView, key: &'static str) -> Option<DecodeError> {
        match v {
            JsonView::Object(m) => required_defect::<String>(m, "path")
                .otherwise(required_defect::<i64>(m, "size-bytes")),
            _ => Some(DecodeError::WrongType(key)),
        }
    }

    open spec fn encoded_by(&self, v: JsonView) -> bool {
        &&& v matches JsonView::Object(m)
        &&& required_holds(m, "path", self.path)
        &&& required_holds(m, "size-bytes", self.size_bytes)
    }

    fn decode(json: &Json, key: &'static str) -> (decoded: Result<FreeSpace, DecodeError>) {
        let m = members_of(json, key)?;
        Ok(
            FreeSpace {
                path: required(m, "path")?,
                size_bytes: required(m, "size-bytes")?,
            },
        )
    }
}

impl Sealed for FreeSpace {

}

impl RpcResponseArgument for FreeSpace {

}

/// Whether the peer port can be reached from outside.
#[derive(Debug, Clone)]
pub struct PortTest {
    pub port_is_open: bool,
}

impl FromJson for PortTest {
    open spec fn defect(v: JsonView, key: &'static str) -> Option<DecodeError> {
        match v {
            JsonView::Object(m) => required_defect::<bool>(m, "port-is-open"),
            _ => Some(DecodeError::WrongType(key)),
        }
    }

    open spec fn encoded_by(&self, v: JsonView) -> bool {
        &&& v matches JsonView::Object(m)
        &&& required_holds(m, "port-is-open", self.port_is_open)
    }

    fn decode(json: &Json, key: &'static str) -> (decoded: Result<PortTest, DecodeError>) {
        let m = members_of(json, key)?;
        Ok(
            PortTest {
                port_is_open: required(m, "port-is-open")?,
            },
        )
    }
}

impl Sealed for PortTest {

}

impl RpcResponseArgument for PortTest {

}

} // verus!
