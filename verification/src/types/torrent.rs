//! Torrents as the daemon reports them: records that hold the fields that were asked for.

use crate::decode::{
    members_of, optional, optional_defect, optional_holds, required, required_defect,
    required_holds, FromJson,
};
use crate::error::{DecodeError, Finding};
use crate::json::{find, lookup, Found, Json, JsonView, Number};
use crate::types::request::TorrentGetField;
use crate::types::response::RpcResponseArgument;
use crate::types::seal::Sealed;
use crate::types::status::TorrentStatus;
use vstd::prelude::*;

verus! {

/// A torrent, as far as it was asked for. A field that was not asked for is `None`: nothing
/// stands in for a value that the daemon did not send.
#[derive(Debug, Clone)]
pub struct Torrent {
    pub activity_date: Option<i64>,
    pub added_date: Option<i64>,
    pub done_date: Option<i64>,
    pub download_dir: Option<String>,
    pub edit_date: Option<i64>,
    pub error: Option<i64>,
    pub error_string: Option<String>,
    pub eta: Option<i64>,
    pub id: Option<i64>,
    pub is_finished: Option<bool>,
    pub is_private: Option<bool>,
    pub is_stalled: Option<bool>,
    pub labels: Option<Vec<String>>,
    pub left_until_done: Option<i64>,
    pub metadata_percent_complete: Option<Number>,
    pub name: Option<String>,
    pub hash_string: Option<String>,
    pub peers_connected: Option<i64>,
    pub peers_getting_from_us: Option<i64>,
    pub peers_sending_to_us: Option<i64>,
    pub percent_done: Option<Number>,
    pub rate_download: Option<i64>,
    pub rate_upload: Option<i64>,
    pub recheck_progress: Option<Number>,
    pub seconds_seeding: Option<i64>,
    pub seed_ratio_limit: Option<Number>,
    pub size_when_done: Option<i64>,
    pub status: Option<TorrentStatus>,
    pub torrent_file: Option<String>,
    pub total_size: Option<i64>,
    pub trackers: Option<Vec<Trackers>>,
    pub upload_ratio: Option<Number>,
    pub uploaded_ever: Option<i64>,
    pub files: Option<Vec<File>>,
    /// For each file in `files`, whether it will be downloaded (0 or 1).
    pub wanted: Option<Vec<i8>>,
    /// For each file in `files`, its priority (low: -1, normal: 0, high: 1).
    pub priorities: Option<Vec<i8>>,
    /// For each file in `files`, its progress.
    pub file_stats: Option<Vec<FileStat>>,
}

impl FromJson for Torrent {
    open spec fn defect(v: JsonView, key: &'static str) -> Option<DecodeError> {
        match v {
            JsonView::Object(m) => optional_defect::<i64>(m, "activityDate")
                .otherwise(optional_defect::<i64>(m, "addedDate"))
                .otherwise(optional_defect::<i64>(m, "doneDate"))
                .otherwise(optional_defect::<String>(m, "downloadDir"))
                .otherwise(optional_defect::<i64>(m, "editDate"))
                .otherwise(optional_defect::<i64>(m, "error"))
                .otherwise(optional_defect::<String>(m, "errorString"))
                .otherwise(optional_defect::<i64>(m, "eta"))
                .otherwise(optional_defect::<i64>(m, "id"))
                .otherwise(optional_defect::<bool>(m, "isFinished"))
                .otherwise(optional_defect::<bool>(m, "isPrivate"))
                .otherwise(optional_defect::<bool>(m, "isStalled"))
                .otherwise(optional_defect::<Vec<String>>(m, "labels"))
                .otherwise(optional_defect::<i64>(m, "leftUntilDone"))
                .otherwise(optional_defect::<Number>(m, "metadataPercentComplete"))
                .otherwise(optional_defect::<String>(m, "name"))
                .otherwise(optional_defect::<String>(m, "hashString"))
                .otherwise(optional_defect::<i64>(m, "peersConnected"))
                .otherwise(optional_defect::<i64>(m, "peersGettingFromUs"))
                .otherwise(optional_defect::<i64>(m, "peersSendingToUs"))
                .otherwise(optional_defect::<Number>(m, "percentDone"))
                .otherwise(optional_defect::<i64>(m, "rateDownload"))
                .otherwise(optional_defect::<i64>(m, "rateUpload"))
                .otherwise(optional_defect::<Number>(m, "recheckProgress"))
                .otherwise(optional_defect::<i64>(m, "secondsSeeding"))
                .otherwise(optional_defect::<Number>(m, "seedRatioLimit"))
                .otherwise(optional_defect::<i64>(m, "sizeWhenDone"))
                .otherwise(optional_defect::<TorrentStatus>(m, "status"))
                .otherwise(optional_defect::<String>(m, "torrentFile"))
                .otherwise(optional_defect::<i64>(m, "totalSize"))
                .otherwise(optional_defect::<Vec<Trackers>>(m, "trackers"))
                .otherwise(optional_defect::<Number>(m, "uploadRatio"))
                .otherwise(optional_defect::<i64>(m, "uploadedEver"))
                .otherwise(optional_defect::<Vec<File>>(m, "files"))
                .otherwise(optional_defect::<Vec<i8>>(m, "wanted"))
                .otherwise(optional_defect::<Vec<i8>>(m, "priorities"))
                .otherwise(optional_defect::<Vec<FileStat>>(m, "fileStats")),
            _ => Some(DecodeError::WrongType(key)),
        }
    }

    open spec fn encoded_by(&self, v: JsonView) -> bool {
        &&& v matches JsonView::Object(m)
        &&& optional_holds(m, "activityDate", self.activity_date)
        &&& optional_holds(m, "addedDate", self.added_date)
        &&& optional_holds(m, "doneDate", self.done_date)
        &&& optional_holds(m, "downloadDir", self.download_dir)
        &&& optional_holds(m, "editDate", self.edit_date)
        &&& optional_holds(m, "error", self.error)
        &&& optional_holds(m, "errorString", self.error_string)
        &&& optional_holds(m, "eta", self.eta)
        &&& optional_holds(m, "id", self.id)
        &&& optional_holds(m, "isFinished", self.is_finished)
        &&& optional_holds(m, "isPrivate", self.is_private)
        &&& optional_holds(m, "isStalled", self.is_stalled)
        &&& optional_holds(m, "labels", self.labels)
        &&& optional_holds(m, "leftUntilDone", self.left_until_done)
        &&& optional_holds(m, "metadataPercentComplete", self.metadata_percent_complete)
        &&& optional_holds(m, "name", self.name)
        &&& optional_holds(m, "hashString", self.hash_string)
        &&& optional_holds(m, "peersConnected", self.peers_connected)
        &&& optional_holds(m, "peersGettingFromUs", self.peers_getting_from_us)
        &&& optional_holds(m, "peersSendingToUs", self.peers_sending_to_us)
        &&& optional_holds(m, "percentDone", self.percent_done)
        &&& optional_holds(m, "rateDownload", self.rate_download)
        &&& optional_holds(m, "rateUpload", self.rate_upload)
        &&& optional_holds(m, "recheckProgress", self.recheck_progress)
        &&& optional_holds(m, "secondsSeeding", self.seconds_seeding)
        &&& optional_holds(m, "seedRatioLimit", self.seed_ratio_limit)
        &&& optional_holds(m, "sizeWhenDone", self.size_when_done)
        &&& optional_holds(m, "status", self.status)
        &&& optional_holds(m, "torrentFile", self.torrent_file)
        &&& optional_holds(m, "totalSize", self.total_size)
        &&& optional_holds(m, "trackers", self.trackers)
        &&& optional_holds(m, "uploadRatio", self.upload_ratio)
        &&& optional_holds(m, "uploadedEver", self.uploaded_ever)
        &&& optional_holds(m, "files", self.files)
        &&& optional_holds(m, "wanted", self.wanted)
        &&& optional_holds(m, "priorities", self.priorities)
        &&& optional_holds(m, "fileStats", self.file_stats)
    }

    fn decode(json: &Json, key: &'static str) -> (decoded: Result<Torrent, DecodeError>) {
        let m = members_of(json, key)?;
        Ok(
            Torrent {
                activity_date: optional(m, "activityDate")?,
                added_date: optional(m, "addedDate")?,
                done_date: optional(m, "doneDate")?,
                download_dir: optional(m, "downloadDir")?,
                edit_date: optional(m, "editDate")?,
                error: optional(m, "error")?,
                error_string: optional(m, "errorString")?,
                eta: optional(m, "eta")?,
                id: optional(m, "id")?,
                is_finished: optional(m, "isFinished")?,
                is_private: optional(m, "isPrivate")?,
                is_stalled: optional(m, "isStalled")?,
                labels: optional(m, "labels")?,
                left_until_done: optional(m, "leftUntilDone")?,
                metadata_percent_complete: optional(m, "metadataPercentComplete")?,
                name: optional(m, "name")?,
                hash_string: optional(m, "hashString")?,
                peers_connected: optional(m, "peersConnected")?,
                peers_getting_from_us: optional(m, "peersGettingFromUs")?,
                peers_sending_to_us: optional(m, "peersSendingToUs")?,
                percent_done: optional(m, "percentDone")?,
                rate_download: optional(m, "rateDownload")?,
                rate_upload: optional(m, "rateUpload")?,
                recheck_progress: optional(m, "recheckProgress")?,
                seconds_seeding: optional(m, "secondsSeeding")?,
                seed_ratio_limit: optional(m, "seedRatioLimit")?,
                size_when_done: optional(m, "sizeWhenDone")?,
                status: optional(m, "status")?,
                torrent_file: optional(m, "torrentFile")?,
                total_size: optional(m, "totalSize")?,
                trackers: optional(m, "trackers")?,
                upload_ratio: optional(m, "uploadRatio")?,
                uploaded_ever: optional(m, "uploadedEver")?,
                files: optional(m, "files")?,
                wanted: optional(m, "wanted")?,
                priorities: optional(m, "priorities")?,
                file_stats: optional(m, "fileStats")?,
            },
        )
    }
}

impl Torrent {
    /// Whether the record holds the field.
    pub open spec fn holds(&self, field: TorrentGetField) -> bool {
        match field {
            TorrentGetField::ActivityDate => self.activity_date is Some,
            TorrentGetField::AddedDate => self.added_date is Some,
            TorrentGetField::DoneDate => self.done_date is Some,
            TorrentGetField::DownloadDir => self.download_dir is Some,
            TorrentGetField::EditDate => self.edit_date is Some,
            TorrentGetField::Error => self.error is Some,
            TorrentGetField::ErrorString => self.error_string is Some,
            TorrentGetField::Eta => self.eta is Some,
            TorrentGetField::Id => self.id is Some,
            TorrentGetField::IsFinished => self.is_finished is Some,
            TorrentGetField::IsPrivate => self.is_private is Some,
            TorrentGetField::IsStalled => self.is_stalled is Some,
            TorrentGetField::Labels => self.labels is Some,
            TorrentGetField::LeftUntilDone => self.left_until_done is Some,
            TorrentGetField::MetadataPercentComplete => self.metadata_percent_complete is Some,
            TorrentGetField::Name => self.name is Some,
            TorrentGetField::HashString => self.hash_string is Some,
            TorrentGetField::PeersConnected => self.peers_connected is Some,
            TorrentGetField::PeersGettingFromUs => self.peers_getting_from_us is Some,
            TorrentGetField::PeersSendingToUs => self.peers_sending_to_us is Some,
            TorrentGetField::PercentDone => self.percent_done is Some,
            TorrentGetField::RateDownload => self.rate_download is Some,
            TorrentGetField::RateUpload => self.rate_upload is Some,
            TorrentGetField::RecheckProgress => self.recheck_progress is Some,
            TorrentGetField::SecondsSeeding => self.seconds_seeding is Some,
            TorrentGetField::SeedRatioLimit => self.seed_ratio_limit is Some,
            TorrentGetField::SizeWhenDone => self.size_when_done is Some,
            TorrentGetField::Status => self.status is Some,
            TorrentGetField::TorrentFile => self.torrent_file is Some,
            TorrentGetField::TotalSize => self.total_size is Some,
            TorrentGetField::Trackers => self.trackers is Some,
            TorrentGetField::UploadRatio => self.upload_ratio is Some,
            TorrentGetField::UploadedEver => self.uploaded_ever is Some,
            TorrentGetField::Files => self.files is Some,
            TorrentGetField::Wanted => self.wanted is Some,
            TorrentGetField::Priorities => self.priorities is Some,
            TorrentGetField::FileStats => self.file_stats is Some,
        }
    }

    /// Whether the record holds the field.
    pub fn has(&self, field: TorrentGetField) -> (held: bool)
        ensures
            held == self.holds(field),
    {
        match field {
            TorrentGetField::ActivityDate => self.activity_date.is_some(),
            TorrentGetField::AddedDate => self.added_date.is_some(),
            TorrentGetField::DoneDate => self.done_date.is_some(),
            TorrentGetField::DownloadDir => self.download_dir.is_some(),
            TorrentGetField::EditDate => self.edit_date.is_some(),
            TorrentGetField::Error => self.error.is_some(),
            TorrentGetField::ErrorString => self.error_string.is_some(),
            TorrentGetField::Eta => self.eta.is_some(),
            TorrentGetField::Id => self.id.is_some(),
            TorrentGetField::IsFinished => self.is_finished.is_some(),
            TorrentGetField::IsPrivate => self.is_private.is_some(),
            TorrentGetField::IsStalled => self.is_stalled.is_some(),
            TorrentGetField::Labels => self.labels.is_some(),
            TorrentGetField::LeftUntilDone => self.left_until_done.is_some(),
            TorrentGetField::MetadataPercentComplete => self.metadata_percent_complete.is_some(),
            TorrentGetField::Name => self.name.is_some(),
            TorrentGetField::HashString => self.hash_string.is_some(),
            TorrentGetField::PeersConnected => self.peers_connected.is_some(),
            TorrentGetField::PeersGettingFromUs => self.peers_getting_from_us.is_some(),
            TorrentGetField::PeersSendingToUs => self.peers_sending_to_us.is_some(),
            TorrentGetField::PercentDone => self.percent_done.is_some(),
            TorrentGetField::RateDownload => self.rate_download.is_some(),
            TorrentGetField::RateUpload => self.rate_upload.is_some(),
            TorrentGetField::RecheckProgress => self.recheck_progress.is_some(),
            TorrentGetField::SecondsSeeding => self.seconds_seeding.is_some(),
            TorrentGetField::SeedRatioLimit => self.seed_ratio_limit.is_some(),
            TorrentGetField::SizeWhenDone => self.size_when_done.is_some(),
            TorrentGetField::Status => self.status.is_some(),
            TorrentGetField::TorrentFile => self.torrent_file.is_some(),
            TorrentGetField::TotalSize => self.total_size.is_some(),
            TorrentGetField::Trackers => self.trackers.is_some(),
            TorrentGetField::UploadRatio => self.upload_ratio.is_some(),
            TorrentGetField::UploadedEver => self.uploaded_ever.is_some(),
            TorrentGetField::Files => self.files.is_some(),
            TorrentGetField::Wanted => self.wanted.is_some(),
            TorrentGetField::Priorities => self.priorities.is_some(),
            TorrentGetField::FileStats => self.file_stats.is_some(),
        }
    }
}

/// Whether every code of a list lies between `low` and `high`.
pub open spec fn codes_within(codes: Seq<i8>, low: int, high: int) -> bool {
    forall|i: int| 0 <= i < codes.len() ==> low <= #[trigger] codes[i] <= high
}

/// Whether every code of a list lies between `low` and `high`.
pub fn all_within(codes: &Vec<i8>, low: i8, high: i8) -> (within: bool)
    ensures
        within == codes_within(codes@, low as int, high as int),
{
    let mut i: usize = 0;
    while i < codes.len()
        invariant
            i <= codes.len(),
            forall|j: int| 0 <= j < i ==> low <= #[trigger] codes@[j] <= high,
        decreases codes.len() - i,
    {
        if codes[i] < low || codes[i] > high {
            return false;
        }
        i += 1;
    }
    true
}

impl Torrent {
    /// Whether the lists that go file by file are as long as the list of files. They are tied
    /// to it by place, so a list of another length describes no files. A list that the record
    /// does not hold is not in question, and where it does not hold the files none is.
    pub open spec fn lists_agree(&self) -> bool {
        self.files matches Some(files) ==> {
            &&& self.wanted matches Some(wanted) ==> wanted@.len() == files@.len()
            &&& self.priorities matches Some(priorities) ==> priorities@.len() == files@.len()
            &&& self.file_stats matches Some(stats) ==> stats@.len() == files@.len()
        }
    }

    /// Whether the codes that go file by file are codes: 0 or 1 for whether a file is wanted,
    /// and -1, 0 or 1 for its priority.
    pub open spec fn codes_valid(&self) -> bool {
        &&& self.wanted matches Some(wanted) ==> codes_within(wanted@, 0, 1)
        &&& self.priorities matches Some(priorities) ==> codes_within(priorities@, -1, 1)
    }

    /// Checks what decoding does not: that the lists that go file by file fit the files, and
    /// hold codes.
    pub fn is_consistent(&self) -> (consistent: bool)
        ensures
            consistent == (self.lists_agree() && self.codes_valid()),
    {
        let agree = match &self.files {
            Some(files) => {
                let wanted = match &self.wanted {
                    Some(wanted) => wanted.len() == files.len(),
                    None => true,
                };
                let priorities = match &self.priorities {
                    Some(priorities) => priorities.len() == files.len(),
                    None => true,
                };
                let stats = match &self.file_stats {
                    Some(stats) => stats.len() == files.len(),
                    None => true,
                };
                wanted && priorities && stats
            },
            None => true,
        };
        let wanted = match &self.wanted {
            Some(wanted) => all_within(wanted, 0, 1),
            None => true,
        };
        let priorities = match &self.priorities {
            Some(priorities) => all_within(priorities, -1, 1),
            None => true,
        };
        agree && wanted && priorities
    }
}

/// A tracker of a torrent.
#[derive(Debug, Clone)]
pub struct Trackers {
    pub id: i32,
    pub announce: String,
}

impl FromJson for Trackers {
    open spec fn defect(v: JsonView, key: &'static str) -> Option<DecodeError> {
        match v {
            JsonView::Object(m) => required_defect::<i32>(m, "id")
                .otherwise(required_defect::<String>(m, "announce")),
            _ => Some(DecodeError::WrongType(key)),
        }
    }

    open spec fn encoded_by(&self, v: JsonView) -> bool {
        &&& v matches JsonView::Object(m)
        &&& required_holds(m, "id", self.id)
        &&& required_holds(m, "announce", self.announce)
    }

    fn decode(json: &Json, key: &'static str) -> (decoded: Result<Trackers, DecodeError>) {
        let m = members_of(json, key)?;
        Ok(
            Trackers {
                id: required(m, "id")?,
                announce: required(m, "announce")?,
            },
        )
    }
}

/// A file of a torrent.
#[derive(Debug, Clone)]
pub struct File {
    pub length: i64,
    pub bytes_completed: i64,
    pub name: String,
}

impl FromJson for File {
    open spec fn defect(v: JsonView, key: &'static str) -> Option<DecodeError> {
        match v {
            JsonView::Object(m) => required_defect::<i64>(m, "length")
                .otherwise(required_defect::<i64>(m, "bytesCompleted"))
                .otherwise(required_defect::<String>(m, "name")),
            _ => Some(DecodeError::WrongType(key)),
        }
    }

    open spec fn encoded_by(&self, v: JsonView) -> bool {
        &&& v matches JsonView::Object(m)
        &&& required_holds(m, "length", self.length)
        &&& required_holds(m, "bytesCompleted", self.bytes_completed)
        &&& required_holds(m, "name", self.name)
    }

    fn decode(json: &Json, key: &'static str) -> (decoded: Result<File, DecodeError>) {
        let m = members_of(json, key)?;
        Ok(
            File {
                length: required(m, "length")?,
                bytes_completed: required(m, "bytesCompleted")?,
                name: required(m, "name")?,
            },
        )
    }
}

/// The progress of a file of a torrent.
#[derive(Debug, Clone)]
pub struct FileStat {
    pub bytes_completed: i64,
    pub wanted: bool,
    /// low: -1, normal: 0, high: 1
    pub priority: i8,
}

impl FromJson for FileStat {
    open spec fn defect(v: JsonView, key: &'static str) -> Option<DecodeError> {
        match v {
            JsonView::Object(m) => required_defect::<i64>(m, "bytesCompleted")
                .otherwise(required_defect::<bool>(m, "wanted"))
                .otherwise(required_defect::<i8>(m, "priority")),
            _ => Some(DecodeError::WrongType(key)),
        }
    }

    open spec fn encoded_by(&self, v: JsonView) -> bool {
        &&& v matches JsonView::Object(m)
        &&& required_holds(m, "bytesCompleted", self.bytes_completed)
        &&& required_holds(m, "wanted", self.wanted)
        &&& required_holds(m, "priority", self.priority)
    }

    fn decode(json: &Json, key: &'static str) -> (decoded: Result<FileStat, DecodeError>) {
        let m = members_of(json, key)?;
        Ok(
            FileStat {
                bytes_completed: required(m, "bytesCompleted")?,
                wanted: required(m, "wanted")?,
                priority: required(m, "priority")?,
            },
        )
    }
}

/// The answer to renaming a path of a torrent.
#[derive(Debug)]
pub struct TorrentRenamePath {
    pub path: Option<String>,
    pub name: Option<String>,
    pub id: Option<i64>,
}

impl FromJson for TorrentRenamePath {
    open spec fn defect(v: JsonView, key: &'static str) -> Option<DecodeError> {
        match v {
            JsonView::Object(m) => optional_defect::<String>(m, "path")
                .otherwise(optional_defect::<String>(m, "name"))
                .otherwise(optional_defect::<i64>(m, "id")),
            _ => Some(DecodeError::WrongType(key)),
        }
    }

    open spec fn encoded_by(&self, v: JsonView) -> bool {
        &&& v matches JsonView::Object(m)
        &&& optional_holds(m, "path", self.path)
        &&& optional_holds(m, "name", self.name)
        &&& optional_holds(m, "id", self.id)
    }

    fn decode(json: &Json, key: &'static str) -> (decoded: Result<TorrentRenamePath, DecodeError>) {
        let m = members_of(json, key)?;
        Ok(
            TorrentRenamePath {
                path: optional(m, "path")?,
                name: optional(m, "name")?,
                id: optional(m, "id")?,
            },
        )
    }
}

impl Sealed for TorrentRenamePath {

}

impl RpcResponseArgument for TorrentRenamePath {

}

/// The empty answer of the methods that report nothing.
#[derive(Debug)]
pub struct Nothing {
}

impl FromJson for Nothing {
    open spec fn defect(v: JsonView, key: &'static str) -> Option<DecodeError> {
        match v {
            JsonView::Object(_) => None,
            _ => Some(DecodeError::WrongType(key)),
        }
    }

    open spec fn encoded_by(&self, v: JsonView) -> bool {
        v is Object
    }

    fn decode(json: &Json, key: &'static str) -> (decoded: Result<Nothing, DecodeError>) {
        members_of(json, key)?;
        Ok(Nothing {  })
    }
}

impl Sealed for Nothing {

}

impl RpcResponseArgument for Nothing {

}

/// The torrents that a query found.
#[derive(Debug)]
pub struct Torrents<T> {
    pub torrents: Vec<T>,
}

impl<T: FromJson> FromJson for Torrents<T> {
    open spec fn defect(v: JsonView, key: &'static str) -> Option<DecodeError> {
        match v {
            JsonView::Object(m) => required_defect::<Vec<T>>(m, "torrents"),
            _ => Some(DecodeError::WrongType(key)),
        }
    }

    open spec fn encoded_by(&self, v: JsonView) -> bool {
        &&& v matches JsonView::Object(m)
        &&& required_holds(m, "torrents", self.torrents)
    }

    fn decode(json: &Json, key: &'static str) -> (decoded: Result<Torrents<T>, DecodeError>) {
        let m = members_of(json, key)?;
        Ok(Torrents { torrents: required(m, "torrents")? })
    }
}

impl Sealed for Torrents<Torrent> {

}

impl RpcResponseArgument for Torrents<Torrent> {

}

/// The outcome of adding a torrent. The wire tells the two apart by the key under which the
/// torrent stands, not by a tag among its fields.
#[derive(Debug)]
pub enum TorrentAddedOrDuplicate {
    /// The daemon had the torrent already: it stands under `torrent-duplicate`.
    TorrentDuplicate(Torrent),
    /// The daemon took the torrent: it stands under `torrent-added`.
    TorrentAdded(Torrent),
}

impl FromJson for TorrentAddedOrDuplicate {
    /// The two keys are tried in turn, `torrent-duplicate` first, and the first that the
    /// object holds decides; the torrent under it is then held to its record.
    open spec fn defect(v: JsonView, key: &'static str) -> Option<DecodeError> {
        match v {
            JsonView::Object(m) => if lookup(m, "torrent-duplicate"@) !is Absent {
                required_defect::<Torrent>(m, "torrent-duplicate")
            } else if lookup(m, "torrent-added"@) !is Absent {
                required_defect::<Torrent>(m, "torrent-added")
            } else {
                Some(DecodeError::NoVariant(key))
            },
            _ => Some(DecodeError::WrongType(key)),
        }
    }

    open spec fn encoded_by(&self, v: JsonView) -> bool {
        &&& v matches JsonView::Object(m)
        &&& match self {
            TorrentAddedOrDuplicate::TorrentDuplicate(torrent) => required_holds(
                m,
                "torrent-duplicate",
                *torrent,
            ),
            TorrentAddedOrDuplicate::TorrentAdded(torrent) => {
                &&& lookup(m, "torrent-duplicate"@) is Absent
                &&& required_holds(m, "torrent-added", *torrent)
            },
        }
    }

    fn decode(json: &Json, key: &'static str) -> (decoded: Result<
        TorrentAddedOrDuplicate,
        DecodeError,
    >) {
        let m = members_of(json, key)?;
        match find(m, "torrent-duplicate") {
            Found::Absent => match find(m, "torrent-added") {
                Found::Absent => Err(DecodeError::NoVariant(key)),
                _ => Ok(TorrentAddedOrDuplicate::TorrentAdded(required(m, "torrent-added")?)),
            },
            _ => Ok(
                TorrentAddedOrDuplicate::TorrentDuplicate(required(m, "torrent-duplicate")?),
            ),
        }
    }
}

impl Sealed for TorrentAddedOrDuplicate {

}

impl RpcResponseArgument for TorrentAddedOrDuplicate {

}

} // verus!
