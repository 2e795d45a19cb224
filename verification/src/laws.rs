//! What holds of the encodings as a whole, proved from the definitions of the other modules.

use crate::decode::{integer_defect, integer_of, FromJson};
use crate::encode::{integer_encoding, lemma_written_push, written, Entry, ToJson};
use crate::error::DecodeError;
use crate::json::{lookup, JsonView, Lookup, Number};
use crate::types::{
    Encryption, RpcResponse, RpcResponseArgument, SessionSetArgs, Torrent,
    TorrentAddedOrDuplicate, TorrentGetField, TorrentStatus,
};
use std::cmp::Ordering;
use vstd::prelude::*;
use vstd::std_specs::cmp::PartialOrdSpec;

verus! {

/// The codes 0 to 6, and no others, stand for a status.
pub proof fn law_status_codes(code: int)
    ensures
        TorrentStatus::of_code(code) is Some <==> 0 <= code <= 6,
        TorrentStatus::of_code(code) matches Some(status) ==> status.code() == code,
{
}

/// Every status is read back from its own code.
pub proof fn law_status_round_trip(status: TorrentStatus)
    ensures
        TorrentStatus::of_code(status.code()) == Some(status),
{
}

/// The statuses are ordered as their codes are: of two codes from 0 to 6, the lower stands
/// for the lesser status, and equal codes for equal statuses.
pub proof fn law_status_order(low: int, high: int)
    requires
        0 <= low <= 6,
        0 <= high <= 6,
    ensures
        TorrentStatus::of_code(low) is Some,
        TorrentStatus::of_code(high) is Some,
        ({
            let a = TorrentStatus::of_code(low)->Some_0;
            let b = TorrentStatus::of_code(high)->Some_0;
            &&& a.partial_cmp_spec(&b) == Some(Ordering::Less) <==> low < high
            &&& a.partial_cmp_spec(&b) == Some(Ordering::Equal) <==> low == high
            &&& a.partial_cmp_spec(&b) == Some(Ordering::Greater) <==> low > high
            &&& a == b <==> low == high
        }),
{
}

/// A JSON value is refused as a status exactly where it is no integer from 0 to 6: a value
/// that is no integer as of the wrong type, an integer outside the range as an unknown status.
pub proof fn law_status_decoding(v: JsonView, key: &'static str)
    ensures
        TorrentStatus::defect(v, key) is None <==> (integer_of(v) matches Some(code) && 0 <= code
            <= 6),
        integer_of(v) matches Some(code) && !(0 <= code <= 6) ==> TorrentStatus::defect(v, key)
            == Some(DecodeError::UnknownStatus(key)),
        integer_of(v) is None ==> TorrentStatus::defect(v, key) == Some(
            DecodeError::WrongType(key),
        ),
{
}

/// The three tokens differ from each other.
pub proof fn lemma_tokens_differ()
    ensures
        "required"@ != "preferred"@,
        "required"@ != "tolerated"@,
        "preferred"@ != "tolerated"@,
{
    reveal_strlit("required");
    reveal_strlit("preferred");
    reveal_strlit("tolerated");
    assert("required"@.len() == 8);
    assert("preferred"@[0] == 'p');
    assert("tolerated"@[0] == 't');
}

/// Each encryption mode is read back from its own token, and a token that is read stands for
/// the mode that it is read as.
pub proof fn law_encryption_round_trip(mode: Encryption, token: Seq<char>)
    ensures
        Encryption::of_token(mode.token()) == Some(mode),
        Encryption::of_token(token) matches Some(read) ==> read.token() == token,
{
    lemma_tokens_differ();
}

/// An encryption mode that is encoded decodes to itself.
pub proof fn law_encryption_wire_round_trip(mode: Encryption, key: &'static str)
    ensures
        Encryption::defect(mode.encoding(), key) is None,
        mode.encoded_by(mode.encoding()),
{
    lemma_tokens_differ();
}

/// A string that is none of the three tokens is refused as an encryption mode.
pub proof fn law_encryption_unknown_token(token: Seq<char>, key: &'static str)
    requires
        token != "required"@,
        token != "preferred"@,
        token != "tolerated"@,
    ensures
        Encryption::of_token(token) is None,
        Encryption::defect(JsonView::Text(token), key) == Some(DecodeError::UnknownToken(key)),
{
}

/// An integer that a JSON number can hold is read back from its encoding, and the encoding
/// is accepted by exactly the types whose range holds the integer.
pub proof fn law_integer_round_trip(i: int, key: &'static str, low: int, high: int)
    requires
        i64::MIN <= i <= u64::MAX,
    ensures
        integer_of(integer_encoding(i)) == Some(i),
        integer_defect(integer_encoding(i), key, low, high) is None <==> low <= i <= high,
{
}

/// A value of a type that is both written and read decodes from its encoding to itself.
pub proof fn law_scalars_round_trip(
    long: i64,
    short: i32,
    size: isize,
    port: u16,
    flag: bool,
    text: String,
    number: Number,
    key: &'static str,
)
    ensures
        i64::defect(long.encoding(), key) is None && long.encoded_by(long.encoding()),
        i32::defect(short.encoding(), key) is None && short.encoded_by(short.encoding()),
        isize::defect(size.encoding(), key) is None && size.encoded_by(size.encoding()),
        u16::defect(port.encoding(), key) is None && port.encoded_by(port.encoding()),
        bool::defect(flag.encoding(), key) is None && flag.encoded_by(flag.encoding()),
        String::defect(text.encoding(), key) is None && text.encoded_by(text.encoding()),
        Number::defect(number.encoding(), key) is None && number.encoded_by(number.encoding()),
{
}

/// A JSON value encodes at most one status, one encryption mode, one integer and one truth
/// value: what is decoded is decided by the value alone.
pub proof fn law_decoding_is_a_function(
    v: JsonView,
    statuses: (TorrentStatus, TorrentStatus),
    modes: (Encryption, Encryption),
    integers: (i64, i64),
    flags: (bool, bool),
)
    ensures
        statuses.0.encoded_by(v) && statuses.1.encoded_by(v) ==> statuses.0 == statuses.1,
        modes.0.encoded_by(v) && modes.1.encoded_by(v) ==> modes.0 == modes.1,
        integers.0.encoded_by(v) && integers.1.encoded_by(v) ==> integers.0 == integers.1,
        flags.0.encoded_by(v) && flags.1.encoded_by(v) ==> flags.0 == flags.1,
{
}

/// An answer succeeded exactly where its result is the seven letters of `success`: a result
/// that is longer or shorter, as by a space, or differs in a letter, as by its case, is a
/// failure.
pub proof fn law_success_is_exact<T: RpcResponseArgument>(response: RpcResponse<T>)
    ensures
        response.succeeded() <==> response.result@ == seq!['s', 'u', 'c', 'c', 'e', 's', 's'],
        response.succeeded() ==> response.result@.len() == 7,
{
    reveal_strlit("success");
    assert("success"@ =~= seq!['s', 'u', 'c', 'c', 'e', 's', 's']);
}

/// Whether an object sent a value under a name: one member has the name, and its value is
/// not `null`.
pub open spec fn sent(members: Seq<(Seq<char>, JsonView)>, name: Seq<char>) -> bool {
    lookup(members, name) matches Lookup::Once(v) && v !is Null
}

impl Torrent {
    /// The fields that the record holds.
    pub open spec fn present(&self) -> Set<TorrentGetField> {
        Set::new(|field: TorrentGetField| self.holds(field))
    }
}

/// A decoded torrent holds a field exactly where the object sent one under the field's name.
pub proof fn law_torrent_holds_what_was_sent(
    torrent: Torrent,
    members: Seq<(Seq<char>, JsonView)>,
    field: TorrentGetField,
)
    requires
        torrent.encoded_by(JsonView::Object(members)),
    ensures
        torrent.holds(field) <==> sent(members, field.name()),
{
}

/// An object that sends none of the fields decodes to the torrent that holds none, whatever
/// else the object holds: no field is required, and no member is refused for its key.
pub proof fn law_torrent_requires_nothing(members: Seq<(Seq<char>, JsonView)>, key: &'static str)
    requires
        forall|field: TorrentGetField| lookup(members, #[trigger] field.name()) is Absent,
    ensures
        Torrent::defect(JsonView::Object(members), key) is None,
        forall|torrent: Torrent| #[trigger]
            torrent.encoded_by(JsonView::Object(members)) ==> torrent.present()
                == Set::<TorrentGetField>::empty(),
{
    // Each field in turn: the object holds nothing under its name.
    assert(lookup(members, TorrentGetField::ActivityDate.name()) is Absent);
    assert(lookup(members, TorrentGetField::AddedDate.name()) is Absent);
    assert(lookup(members, TorrentGetField::DoneDate.name()) is Absent);
    assert(lookup(members, TorrentGetField::DownloadDir.name()) is Absent);
    assert(lookup(members, TorrentGetField::EditDate.name()) is Absent);
    assert(lookup(members, TorrentGetField::Error.name()) is Absent);
    assert(lookup(members, TorrentGetField::ErrorString.name()) is Absent);
    assert(lookup(members, TorrentGetField::Eta.name()) is Absent);
    assert(lookup(members, TorrentGetField::Id.name()) is Absent);
    assert(lookup(members, TorrentGetField::IsFinished.name()) is Absent);
    assert(lookup(members, TorrentGetField::IsPrivate.name()) is Absent);
    assert(lookup(members, TorrentGetField::IsStalled.name()) is Absent);
    assert(lookup(members, TorrentGetField::Labels.name()) is Absent);
    assert(lookup(members, TorrentGetField::LeftUntilDone.name()) is Absent);
    assert(lookup(members, TorrentGetField::MetadataPercentComplete.name()) is Absent);
    assert(lookup(members, TorrentGetField::Name.name()) is Absent);
    assert(lookup(members, TorrentGetField::HashString.name()) is Absent);
    assert(lookup(members, TorrentGetField::PeersConnected.name()) is Absent);
    assert(lookup(members, TorrentGetField::PeersGettingFromUs.name()) is Absent);
    assert(lookup(members, TorrentGetField::PeersSendingToUs.name()) is Absent);
    assert(lookup(members, TorrentGetField::PercentDone.name()) is Absent);
    assert(lookup(members, TorrentGetField::RateDownload.name()) is Absent);
    assert(lookup(members, TorrentGetField::RateUpload.name()) is Absent);
    assert(lookup(members, TorrentGetField::RecheckProgress.name()) is Absent);
    assert(lookup(members, TorrentGetField::SecondsSeeding.name()) is Absent);
    assert(lookup(members, TorrentGetField::SeedRatioLimit.name()) is Absent);
    assert(lookup(members, TorrentGetField::SizeWhenDone.name()) is Absent);
    assert(lookup(members, TorrentGetField::Status.name()) is Absent);
    assert(lookup(members, TorrentGetField::TorrentFile.name()) is Absent);
    assert(lookup(members, TorrentGetField::TotalSize.name()) is Absent);
    assert(lookup(members, TorrentGetField::Trackers.name()) is Absent);
    assert(lookup(members, TorrentGetField::UploadRatio.name()) is Absent);
    assert(lookup(members, TorrentGetField::UploadedEver.name()) is Absent);
    assert(lookup(members, TorrentGetField::Files.name()) is Absent);
    assert(lookup(members, TorrentGetField::Wanted.name()) is Absent);
    assert(lookup(members, TorrentGetField::Priorities.name()) is Absent);
    assert(lookup(members, TorrentGetField::FileStats.name()) is Absent);
    assert forall|torrent: Torrent| #[trigger]
        torrent.encoded_by(JsonView::Object(members)) implies torrent.present() == Set::<
        TorrentGetField,
    >::empty() by {
        assert forall|field: TorrentGetField| !torrent.present().contains(field) by {
            law_torrent_holds_what_was_sent(torrent, members, field);
        }
        assert(torrent.present() =~= Set::<TorrentGetField>::empty());
    }
}

/// Where the daemon sent the fields that were asked for and no others, the fields that the
/// decoded torrent holds are the fields that were asked for.
pub proof fn law_torrent_projection(
    torrent: Torrent,
    members: Seq<(Seq<char>, JsonView)>,
    requested: Set<TorrentGetField>,
)
    requires
        torrent.encoded_by(JsonView::Object(members)),
        forall|field: TorrentGetField| requested.contains(field) <==> sent(members, field.name()),
    ensures
        torrent.present() == requested,
{
    assert forall|field: TorrentGetField| torrent.present().contains(field) == requested.contains(
        field,
    ) by {
        law_torrent_holds_what_was_sent(torrent, members, field);
    }
    assert(torrent.present() =~= requested);
}

/// An object of one member holds that member's value under its key, and nothing under any
/// other key.
pub proof fn lemma_lookup_single(name: Seq<char>, value: JsonView, key: Seq<char>)
    ensures
        lookup(seq![(name, value)], key) == if name == key {
            Lookup::Once(value)
        } else {
            Lookup::Absent
        },
{
    let members = seq![(name, value)];
    assert(members.drop_last() =~= Seq::empty());
    assert(lookup(members.drop_last(), key) is Absent);
}

/// What an object holds under a key, by the places of its members: nothing where no member
/// has the key, and more than one value where two members have it.
pub proof fn law_lookup_by_places(members: Seq<(Seq<char>, JsonView)>, key: Seq<char>)
    ensures
        lookup(members, key) is Absent <==> forall|i: int|
            0 <= i < members.len() ==> (#[trigger] members[i]).0 != key,
        lookup(members, key) is Repeated <==> exists|i: int, j: int|
            0 <= i < j < members.len() && (#[trigger] members[i]).0 == key && (
            #[trigger] members[j]).0 == key,
        lookup(members, key) matches Lookup::Once(v) ==> exists|i: int|
            0 <= i < members.len() && #[trigger] members[i] == (key, v),
    decreases members.len(),
{
    if members.len() > 0 {
        let before = members.drop_last();
        let n = before.len() as int;
        law_lookup_by_places(before, key);
        assert forall|i: int| 0 <= i < n implies before[i] == members[i] by {}
        if lookup(members, key) is Absent {
            assert forall|i: int| 0 <= i < members.len() implies (#[trigger] members[i]).0
                != key by {
                if i < n {
                    assert(before[i].0 != key);
                }
            }
        }
        if lookup(members, key) is Repeated {
            if members.last().0 == key {
                let i = choose|i: int| 0 <= i < n && (#[trigger] before[i]).0 == key;
                assert(members[i].0 == key && members[n].0 == key);
            } else {
                let (i, j) = choose|i: int, j: int|
                    0 <= i < j < n && (#[trigger] before[i]).0 == key && (#[trigger] before[j]).0
                        == key;
                assert(members[i].0 == key && members[j].0 == key);
            }
        }
        if exists|i: int, j: int|
            0 <= i < j < members.len() && (#[trigger] members[i]).0 == key && (
            #[trigger] members[j]).0 == key {
            let (i, j) = choose|i: int, j: int|
                0 <= i < j < members.len() && (#[trigger] members[i]).0 == key && (
                #[trigger] members[j]).0 == key;
            assert(before[i].0 == key);
            if j < n {
                assert(before[j].0 == key);
            }
        }
        if lookup(members, key) is Once {
            let v = lookup(members, key)->Once_0;
            if lookup(before, key) is Once {
                let i = choose|i: int| 0 <= i < n && #[trigger] before[i] == (key, v);
                assert(members[i] == (key, v));
            } else {
                assert(members[n] == (key, v));
            }
        }
    }
}

/// A member with another key changes nothing about what an object holds under a key: a record
/// is read the same whatever the object holds beside its fields.
pub proof fn law_other_members_do_not_matter(
    members: Seq<(Seq<char>, JsonView)>,
    other: (Seq<char>, JsonView),
    key: Seq<char>,
)
    requires
        other.0 != key,
    ensures
        lookup(members.push(other), key) == lookup(members, key),
{
    assert(members.push(other).drop_last() =~= members);
}

/// The outcome of adding a torrent is read by the key under which the torrent stands: as a
/// duplicate where the object has a member `torrent-duplicate`, else as added where it has a
/// member `torrent-added`.
pub proof fn law_outcome_by_key(
    outcome: TorrentAddedOrDuplicate,
    members: Seq<(Seq<char>, JsonView)>,
)
    requires
        outcome.encoded_by(JsonView::Object(members)),
    ensures
        outcome is TorrentDuplicate <==> lookup(members, "torrent-duplicate"@) !is Absent,
        outcome is TorrentAdded <==> lookup(members, "torrent-duplicate"@) is Absent,
        outcome matches TorrentAddedOrDuplicate::TorrentAdded(torrent) ==> lookup(
            members,
            "torrent-added"@,
        ) matches Lookup::Once(v) && torrent.encoded_by(v),
        outcome matches TorrentAddedOrDuplicate::TorrentDuplicate(torrent) ==> lookup(
            members,
            "torrent-duplicate"@,
        ) matches Lookup::Once(v) && torrent.encoded_by(v),
{
}

/// An object that has neither key encodes no outcome, whatever else it holds. The empty
/// object is one such.
pub proof fn law_outcome_needs_a_key(members: Seq<(Seq<char>, JsonView)>, key: &'static str)
    requires
        lookup(members, "torrent-duplicate"@) is Absent,
        lookup(members, "torrent-added"@) is Absent,
    ensures
        TorrentAddedOrDuplicate::defect(JsonView::Object(members), key) == Some(
            DecodeError::NoVariant(key),
        ),
        TorrentAddedOrDuplicate::defect(JsonView::Object(Seq::empty()), key) == Some(
            DecodeError::NoVariant(key),
        ),
{
}

/// An object whose one member is a torrent under `torrent-added` is read as added, and one
/// whose one member is a torrent under `torrent-duplicate` as a duplicate, where the value
/// encodes a torrent; where it does not, the fault is that of the torrent.
pub proof fn law_outcome_of_one_member(value: JsonView, key: &'static str)
    ensures
        TorrentAddedOrDuplicate::defect(JsonView::Object(seq![("torrent-added"@, value)]), key)
            == Torrent::defect(value, "torrent-added"),
        TorrentAddedOrDuplicate::defect(
            JsonView::Object(seq![("torrent-duplicate"@, value)]),
            key,
        ) == Torrent::defect(value, "torrent-duplicate"),
        forall|outcome: TorrentAddedOrDuplicate| #[trigger]
            outcome.encoded_by(JsonView::Object(seq![("torrent-added"@, value)]))
                ==> outcome is TorrentAdded,
        forall|outcome: TorrentAddedOrDuplicate| #[trigger]
            outcome.encoded_by(JsonView::Object(seq![("torrent-duplicate"@, value)]))
                ==> outcome is TorrentDuplicate,
{
    reveal_strlit("torrent-added");
    reveal_strlit("torrent-duplicate");
    assert("torrent-added"@.len() != "torrent-duplicate"@.len());
    lemma_lookup_single("torrent-added"@, value, "torrent-added"@);
    lemma_lookup_single("torrent-added"@, value, "torrent-duplicate"@);
    lemma_lookup_single("torrent-duplicate"@, value, "torrent-added"@);
    lemma_lookup_single("torrent-duplicate"@, value, "torrent-duplicate"@);
}

/// The patch in which no field is set encodes as the empty object.
pub proof fn law_empty_patch()
    ensures
        SessionSetArgs::unset().encoding() == JsonView::Object(Seq::empty()),
{
    broadcast use lemma_written_push;

}

/// A patch in which only the download directory is set encodes as an object of one member,
/// `download-dir`: no other field leaves a key.
pub proof fn law_patch_of_one_field(patch: SessionSetArgs, dir: String)
    requires
        patch == (SessionSetArgs { download_dir: Some(dir), ..SessionSetArgs::unset() }),
    ensures
        patch.encoding() == JsonView::Object(seq![("download-dir"@, JsonView::Text(dir@))]),
{
    broadcast use lemma_written_push;

    assert(written(patch.entries()) =~= seq![("download-dir"@, JsonView::Text(dir@))]);
}

/// The keys on the wire are the keys of the fields that are set: a member has a key exactly
/// where an entry with that key is set, and it holds that entry's encoding.
pub proof fn law_written_is_what_is_set(entries: Seq<Entry>, key: Seq<char>, v: JsonView)
    ensures
        written(entries).len() <= entries.len(),
        (exists|i: int| 0 <= i < written(entries).len() && #[trigger] written(entries)[i] == (key, v))
            <==> (exists|j: int| 0 <= j < entries.len() && #[trigger] entries[j] == (key, Some(v))),
    decreases entries.len(),
{
    if entries.len() > 0 {
        let before = entries.drop_last();
        let n = before.len() as int;
        law_written_is_what_is_set(before, key, v);
        assert forall|j: int| 0 <= j < n implies before[j] == entries[j] by {}
        let out = written(entries);
        let out_before = written(before);
        if exists|i: int| 0 <= i < out.len() && #[trigger] out[i] == (key, v) {
            let i = choose|i: int| 0 <= i < out.len() && #[trigger] out[i] == (key, v);
            if i < out_before.len() {
                assert(out_before[i] == (key, v));
                let j = choose|j: int| 0 <= j < n && #[trigger] before[j] == (key, Some(v));
                assert(entries[j] == (key, Some(v)));
            } else {
                assert(entries[n] == (key, Some(v)));
            }
        }
        if exists|j: int| 0 <= j < entries.len() && #[trigger] entries[j] == (key, Some(v)) {
            let j = choose|j: int| 0 <= j < entries.len() && #[trigger] entries[j] == (key, Some(v));
            if j < n {
                assert(before[j] == (key, Some(v)));
                let i = choose|i: int| 0 <= i < out_before.len() && #[trigger] out_before[i] == (key, v);
                assert(out[i] == (key, v));
            } else {
                assert(out[out.len() - 1] == (key, v));
            }
        }
    }
}

/// Whether no two entries have the same key.
pub open spec fn keys_differ(entries: Seq<Entry>) -> bool {
    forall|i: int, j: int| 0 <= i < j < entries.len() ==> entries[i].0 != entries[j].0
}

/// Under a key that no entry has, nothing is written.
pub proof fn lemma_written_absent(entries: Seq<Entry>, key: Seq<char>)
    requires
        forall|i: int| 0 <= i < entries.len() ==> (#[trigger] entries[i]).0 != key,
    ensures
        lookup(written(entries), key) is Absent,
    decreases entries.len(),
{
    if entries.len() > 0 {
        let before = entries.drop_last();
        assert forall|i: int| 0 <= i < before.len() implies (#[trigger] before[i]).0 != key by {
            assert(before[i] == entries[i]);
        }
        lemma_written_absent(before, key);
        assert(entries.last() == entries[entries.len() - 1]);
        if entries.last().1 is Some {
            assert(written(entries).drop_last() =~= written(before));
        }
    }
}

/// Where no two fields share a key, the object that is written holds under the key of each
/// field that is set the encoding of that field, once, and nothing under the key of a field
/// that is unset: what a reader finds is what the writer had.
pub proof fn law_written_lookup(entries: Seq<Entry>, i: int)
    requires
        keys_differ(entries),
        0 <= i < entries.len(),
    ensures
        lookup(written(entries), entries[i].0) == match entries[i].1 {
            Some(v) => Lookup::Once(v),
            None => Lookup::Absent,
        },
    decreases entries.len(),
{
    let before = entries.drop_last();
    let n = entries.len() - 1;
    let key = entries[i].0;
    assert forall|j: int| 0 <= j < before.len() implies before[j] == entries[j] by {}
    assert(entries.last() == entries[n]);
    if entries.last().1 is Some {
        assert(written(entries).drop_last() =~= written(before));
    }
    if i == n {
        lemma_written_absent(before, key);
    } else {
        assert(keys_differ(before));
        law_written_lookup(before, i);
        assert(entries[n].0 != key);
    }
}

} // verus!
