//! The stage of its life that a torrent is in.

use crate::decode::{integer, integer_of, FromJson};
use crate::error::DecodeError;
use crate::json::{Json, JsonView};
use std::cmp::Ordering;
use vstd::prelude::*;
use vstd::std_specs::cmp::PartialOrdSpecImpl;

verus! {

/// The stages that a torrent moves through, in the order of their codes on the wire.
#[derive(Clone, Copy, PartialEq, Eq, Structural, Ord, Debug)]
pub enum TorrentStatus {
    Stopped,
    QueuedToVerify,
    Verifying,
    QueuedToDownload,
    Downloading,
    QueuedToSeed,
    Seeding,
}

impl TorrentStatus {
    /// The code that stands for the status on the wire.
    pub open spec fn code(self) -> int {
        match self {
            TorrentStatus::Stopped => 0,
            TorrentStatus::QueuedToVerify => 1,
            TorrentStatus::Verifying => 2,
            TorrentStatus::QueuedToDownload => 3,
            TorrentStatus::Downloading => 4,
            TorrentStatus::QueuedToSeed => 5,
            TorrentStatus::Seeding => 6,
        }
    }

    /// The status that a code stands for, if it is one of 0 to 6.
    pub open spec fn of_code(code: int) -> Option<TorrentStatus> {
        if code == 0 {
            Some(TorrentStatus::Stopped)
        } else if code == 1 {
            Some(TorrentStatus::QueuedToVerify)
        } else if code == 2 {
            Some(TorrentStatus::Verifying)
        } else if code == 3 {
            Some(TorrentStatus::QueuedToDownload)
        } else if code == 4 {
            Some(TorrentStatus::Downloading)
        } else if code == 5 {
            Some(TorrentStatus::QueuedToSeed)
        } else if code == 6 {
            Some(TorrentStatus::Seeding)
        } else {
            None
        }
    }

    /// The code that stands for the status on the wire.
    pub fn to_code(self) -> (code: u8)
        ensures
            code == self.code(),
    {
        match self {
            TorrentStatus::Stopped => 0,
            TorrentStatus::QueuedToVerify => 1,
            TorrentStatus::Verifying => 2,
            TorrentStatus::QueuedToDownload => 3,
            TorrentStatus::Downloading => 4,
            TorrentStatus::QueuedToSeed => 5,
            TorrentStatus::Seeding => 6,
        }
    }

    /// Reads a status from its code. A code above 6 is refused.
    pub fn from_code(code: u8) -> (status: Option<TorrentStatus>)
        ensures
            status == TorrentStatus::of_code(code as int),
            status is Some <==> code <= 6,
    {
        match code {
            0 => Some(TorrentStatus::Stopped),
            1 => Some(TorrentStatus::QueuedToVerify),
            2 => Some(TorrentStatus::Verifying),
            3 => Some(TorrentStatus::QueuedToDownload),
            4 => Some(TorrentStatus::Downloading),
            5 => Some(TorrentStatus::QueuedToSeed),
            6 => Some(TorrentStatus::Seeding),
            _ => None,
        }
    }
}

impl PartialOrd for TorrentStatus {
    fn partial_cmp(&self, other: &TorrentStatus) -> (order: Option<Ordering>) {
        let mine: u8 = self.to_code();
        let theirs: u8 = other.to_code();
        if mine < theirs {
            Some(Ordering::Less)
        } else if mine == theirs {
            Some(Ordering::Equal)
        } else {
            Some(Ordering::Greater)
        }
    }
}

impl PartialOrdSpecImpl for TorrentStatus {
    open spec fn obeys_partial_cmp_spec() -> bool {
        true
    }

    open spec fn partial_cmp_spec(&self, other: &TorrentStatus) -> Option<Ordering> {
        if self.code() < other.code() {
            Some(Ordering::Less)
        } else if self.code() == other.code() {
            Some(Ordering::Equal)
        } else {
            Some(Ordering::Greater)
        }
    }
}

impl FromJson for TorrentStatus {
    open spec fn defect(v: JsonView, key: &'static str) -> Option<DecodeError> {
        match integer_of(v) {
            None => Some(DecodeError::WrongType(key)),
            Some(code) => if TorrentStatus::of_code(code) is Some {
                None
            } else {
                Some(DecodeError::UnknownStatus(key))
            },
        }
    }

    open spec fn encoded_by(&self, v: JsonView) -> bool {
        integer_of(v) == Some(self.code())
    }

    fn decode(json: &Json, key: &'static str) -> (decoded: Result<TorrentStatus, DecodeError>) {
        match integer(json, key, 0, 6) {
            Ok(code) => match TorrentStatus::from_code(code as u8) {
                Some(status) => Ok(status),
                None => Err(DecodeError::UnknownStatus(key)),
            },
            Err(DecodeError::OutOfRange(_)) => Err(DecodeError::UnknownStatus(key)),
            Err(fault) => Err(fault),
        }
    }
}

} // verus!
