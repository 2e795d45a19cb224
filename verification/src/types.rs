//! The messages of the protocol, and the small values that they share.

pub mod request;
pub mod response;
mod seal;
pub mod session;
pub mod status;
pub mod torrent;

use crate::decode::FromJson;
use crate::encode::ToJson;
use crate::error::DecodeError;
use crate::json::{same_text, Json, JsonView};
use vstd::prelude::*;

pub use self::request::{
    Id, RpcRequest, SessionSetArgs, TorrentAction, TorrentAddArgs, TorrentGetArgs, TorrentGetField,
    TorrentRenamePathArgs, TorrentSetArgs,
};
pub use self::response::{RpcResponse, RpcResponseArgument};
pub use self::session::{
    BlocklistUpdate, FreeSpace, PortTest, SessionClose, SessionGet, SessionStats, Stats,
};
pub use self::status::TorrentStatus;
pub use self::torrent::{
    File, FileStat, Nothing, Torrent, TorrentAddedOrDuplicate, TorrentRenamePath, Torrents,
    Trackers,
};

verus! {

/// The name and password that the daemon asks of its callers.
#[derive(Debug)]
pub struct BasicAuth {
    pub user: String,
    pub password: String,
}

/// How far the daemon insists on encrypted connections to its peers.
#[derive(Debug, Clone, Copy, PartialEq, Eq, Structural)]
pub enum Encryption {
    Required,
    Preferred,
    Tolerated,
}

impl Encryption {
    /// The token that stands for the mode on the wire.
    pub open spec fn token(self) -> Seq<char> {
        match self {
            Encryption::Required => "required"@,
            Encryption::Preferred => "preferred"@,
            Encryption::Tolerated => "tolerated"@,
        }
    }

    /// The mode that a token stands for, if it is one of the three.
    pub open spec fn of_token(token: Seq<char>) -> Option<Encryption> {
        if token == "required"@ {
            Some(Encryption::Required)
        } else if token == "preferred"@ {
            Some(Encryption::Preferred)
        } else if token == "tolerated"@ {
            Some(Encryption::Tolerated)
        } else {
            None
        }
    }

    /// The token that stands for the mode on the wire.
    pub fn as_str(self) -> (token: &'static str)
        ensures
            token@ == self.token(),
    {
        match self {
            Encryption::Required => "required",
            Encryption::Preferred => "preferred",
            Encryption::Tolerated => "tolerated",
        }
    }

    /// Reads a mode from its token. Any other string is refused: there is no fallback mode.
    pub fn from_token(token: &str) -> (mode: Option<Encryption>)
        ensures
            mode == Encryption::of_token(token@),
    {
        if same_text(token, "required") {
            Some(Encryption::Required)
        } else if same_text(token, "preferred") {
            Some(Encryption::Preferred)
        } else if same_text(token, "tolerated") {
            Some(Encryption::Tolerated)
        } else {
            None
        }
    }
}

impl FromJson for Encryption {
    open spec fn defect(v: JsonView, key: &'static str) -> Option<DecodeError> {
        match v {
            JsonView::Text(token) => if Encryption::of_token(token) is Some {
                None
            } else {
                Some(DecodeError::UnknownToken(key))
            },
            _ => Some(DecodeError::WrongType(key)),
        }
    }

    open spec fn encoded_by(&self, v: JsonView) -> bool {
        v matches JsonView::Text(token) && Encryption::of_token(token) == Some(*self)
    }

    fn decode(json: &Json, key: &'static str) -> (decoded: Result<Encryption, DecodeError>) {
        match json {
            Json::Text(token) => match Encryption::from_token(token.as_str()) {
                Some(mode) => Ok(mode),
                None => Err(DecodeError::UnknownToken(key)),
            },
            _ => Err(DecodeError::WrongType(key)),
        }
    }
}

impl ToJson for Encryption {
    open spec fn encoding(&self) -> JsonView {
        JsonView::Text(self.token())
    }

    fn to_json(&self) -> (json: Json) {
        Json::Text(self.as_str().to_owned())
    }
}

} // verus!
