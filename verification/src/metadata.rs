//! The metadata that travels with a sample.
//!
//! A sample says as little as it can: its kind only when it is not a put, its
//! encoding only when it is not the default one. The timestamp, when the
//! session mints one, is always recorded. Metadata in which nothing is
//! recorded is left out altogether; a timestamp counts as something recorded,
//! so a session that mints timestamps always emits metadata.

use vstd::prelude::*;
use crate::encoding::Encoding;
use crate::sample::{SampleKind, Timestamp};

verus! {

/// The optional fields of a sample.
#[derive(Debug, PartialEq, Eq)]
pub struct DataInfo {
    /// The kind, recorded only when it is not `Put`.
    pub kind: Option<SampleKind>,
    /// The encoding, recorded only when it is not the default one.
    pub encoding: Option<Encoding>,
    /// The timestamp the session minted, if it mints any.
    pub timestamp: Option<Timestamp>,
}

impl DataInfo {
    /// Metadata in which nothing is recorded.
    pub open spec fn spec_new() -> DataInfo {
        DataInfo { kind: None, encoding: None, timestamp: None }
    }

    /// Whether anything is recorded: a kind, an encoding or a timestamp.
    pub open spec fn spec_has_options(self) -> bool {
        self.kind is Some || self.encoding is Some || self.timestamp is Some
    }

    /// A recorded kind is never the one that is implied when none is
    /// recorded, and neither is a recorded encoding.
    pub open spec fn wf(self) -> bool {
        &&& self.kind != Some(SampleKind::Put)
        &&& self.encoding != Some(Encoding::spec_default())
    }

    /// The fields recorded for a sample of the given kind and encoding,
    /// before it is decided whether they are emitted.
    pub open spec fn spec_fields(
        kind: SampleKind,
        encoding: Encoding,
        timestamp: Option<Timestamp>,
    ) -> DataInfo {
        DataInfo {
            kind: if kind == SampleKind::Put { None } else { Some(kind) },
            encoding: if encoding == Encoding::spec_default() { None } else { Some(encoding) },
            timestamp,
        }
    }

    /// The metadata emitted for a sample: its recorded fields, or nothing
    /// when none is recorded.
    pub open spec fn spec_for_sample(
        kind: SampleKind,
        encoding: Encoding,
        timestamp: Option<Timestamp>,
    ) -> Option<DataInfo> {
        let info = Self::spec_fields(kind, encoding, timestamp);
        if info.spec_has_options() { Some(info) } else { None }
    }

    /// The kind of a sample that came with the given metadata.
    pub open spec fn spec_kind_of(info: Option<DataInfo>) -> SampleKind {
        match info {
            Some(DataInfo { kind: Some(k), .. }) => k,
            _ => SampleKind::Put,
        }
    }

    /// The encoding of a sample that came with the given metadata.
    pub open spec fn spec_encoding_of(info: Option<DataInfo>) -> Encoding {
        match info {
            Some(DataInfo { encoding: Some(e), .. }) => e,
            _ => Encoding::spec_default(),
        }
    }

    /// The timestamp of a sample that came with the given metadata.
    pub open spec fn spec_timestamp_of(info: Option<DataInfo>) -> Option<Timestamp> {
        match info {
            Some(i) => i.timestamp,
            None => None,
        }
    }

    /// Metadata in which nothing is recorded.
    pub fn new() -> (r: DataInfo)
        ensures
            r == Self::spec_new(),
            !r.spec_has_options(),
            r.wf(),
    {
        DataInfo { kind: None, encoding: None, timestamp: None }
    }

    /// Whether anything is recorded.
    pub fn has_options(&self) -> (r: bool)
        ensures
            r == self.spec_has_options(),
    {
        self.kind.is_some() || self.encoding.is_some() || self.timestamp.is_some()
    }

    /// Assembles the metadata of one sample.
    ///
    /// The kind is recorded unless it is `Put`, the encoding unless it is the
    /// default one, the timestamp whenever there is one. `None` comes back
    /// exactly for a put with the default encoding and no timestamp.
    pub fn for_sample(kind: SampleKind, encoding: Encoding, timestamp: Option<Timestamp>) -> (r:
        Option<DataInfo>)
        ensures
            r == Self::spec_for_sample(kind, encoding, timestamp),
            r is None <==> (kind == SampleKind::Put && encoding == Encoding::spec_default()
                && timestamp is None),
            r matches Some(info) ==> info.wf(),
    {
        let mut info = DataInfo::new();
        info.kind = match kind {
            SampleKind::Put => None,
            SampleKind::Delete => Some(SampleKind::Delete),
        };
        info.encoding = if !encoding.is_default() { Some(encoding) } else { None };
        info.timestamp = timestamp;
        if info.has_options() {
            Some(info)
        } else {
            None
        }
    }

    /// The kind of a sample that came with the given metadata: the recorded
    /// one, `Put` where none is recorded.
    pub fn kind_of(info: &Option<DataInfo>) -> (r: SampleKind)
        ensures
            r == Self::spec_kind_of(*info),
    {
        match info {
            Some(DataInfo { kind: Some(k), .. }) => *k,
            _ => SampleKind::Put,
        }
    }

    /// The encoding of a sample that came with the given metadata: the
    /// recorded one, the default where none is recorded.
    pub fn encoding_of(info: &Option<DataInfo>) -> (r: Encoding)
        ensures
            r == Self::spec_encoding_of(*info),
    {
        match info {
            Some(DataInfo { encoding: Some(e), .. }) => e.clone(),
            _ => Encoding::Exact(crate::encoding::KnownEncoding::Empty),
        }
    }

    /// The timestamp of a sample that came with the given metadata.
    pub fn timestamp_of(info: &Option<DataInfo>) -> (r: Option<Timestamp>)
        ensures
            r == Self::spec_timestamp_of(*info),
    {
        match info {
            Some(i) => i.timestamp,
            None => None,
        }
    }
}

impl Clone for DataInfo {
    fn clone(&self) -> (r: Self)
        ensures
            r == *self,
    {
        let encoding = match &self.encoding {
            Some(e) => Some(e.clone()),
            None => None,
        };
        DataInfo { kind: self.kind, encoding, timestamp: self.timestamp }
    }
}

/// Metadata loses nothing: the kind, the encoding and the timestamp read back
/// from what was emitted for a sample are those the sample was built from,
/// whether or not anything was emitted.
pub proof fn lemma_metadata_round_trip(
    kind: SampleKind,
    encoding: Encoding,
    timestamp: Option<Timestamp>,
)
    ensures
        DataInfo::spec_kind_of(DataInfo::spec_for_sample(kind, encoding, timestamp)) == kind,
        DataInfo::spec_encoding_of(DataInfo::spec_for_sample(kind, encoding, timestamp))
            == encoding,
        DataInfo::spec_timestamp_of(DataInfo::spec_for_sample(kind, encoding, timestamp))
            == timestamp,
{
}

/// A put with the default encoding records neither kind nor encoding: the
/// metadata, if any is emitted, holds the timestamp alone, and the sample
/// still reads back as a put with the default encoding.
pub proof fn lemma_default_put_omits_kind_and_encoding(timestamp: Option<Timestamp>)
    ensures
        DataInfo::spec_fields(SampleKind::Put, Encoding::spec_default(), timestamp).kind is None,
        DataInfo::spec_fields(SampleKind::Put, Encoding::spec_default(), timestamp).encoding
            is None,
        DataInfo::spec_for_sample(SampleKind::Put, Encoding::spec_default(), timestamp)
            matches Some(info) ==> info.kind is None && info.encoding is None,
        DataInfo::spec_for_sample(SampleKind::Put, Encoding::spec_default(), timestamp) is None
            <==> timestamp is None,
        DataInfo::spec_kind_of(
            DataInfo::spec_for_sample(SampleKind::Put, Encoding::spec_default(), timestamp),
        ) == SampleKind::Put,
        DataInfo::spec_encoding_of(
            DataInfo::spec_for_sample(SampleKind::Put, Encoding::spec_default(), timestamp),
        ) == Encoding::spec_default(),
{
}

/// A delete always emits metadata, and the metadata records the kind.
pub proof fn lemma_delete_records_kind(encoding: Encoding, timestamp: Option<Timestamp>)
    ensures
        DataInfo::spec_for_sample(SampleKind::Delete, encoding, timestamp) is Some,
        DataInfo::spec_for_sample(SampleKind::Delete, encoding, timestamp).unwrap().kind == Some(
            SampleKind::Delete,
        ),
{
}

} // verus!
