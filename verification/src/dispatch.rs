//! What a write hands off, and to whom.
//!
//! A write decides two hand-offs and performs neither: the caller passes each
//! record to its session, the first to the routing layer, the second to the
//! delivery path of the subscribers in the same process.

use std::sync::Arc;
use vstd::prelude::*;
use crate::metadata::DataInfo;
use crate::qos::{Channel, CongestionControl};
use crate::sample::Timestamp;

verus! {

/// Why a publication could not be handed off.
#[derive(Clone, Copy, Debug, PartialEq, Eq, Structural)]
pub enum PublishError {
    /// The session has no handle to the routing layer.
    SessionNotReady,
}

/// Why the push target refused an item.
#[derive(Clone, Copy, Debug, PartialEq, Eq, Structural)]
pub enum SinkError {
    /// The write behind the push failed.
    Write(PublishError),
}

/// What a write reads from the session, taken at the moment of the call.
#[derive(Clone, Copy, Debug, PartialEq, Eq, Structural)]
pub struct SessionSnapshot {
    /// Whether the session holds a handle to the routing layer.
    pub routing_ready: bool,
    /// The timestamp the session minted for this write, if it mints any.
    pub timestamp: Option<Timestamp>,
    /// Whether the session delivers to its own subscribers when a publisher
    /// does not say.
    pub local_routing: bool,
}

/// What a [`SendData`] is in contracts.
pub struct SendDataView {
    pub key_expr: String,
    pub payload: Seq<u8>,
    pub channel: Channel,
    pub congestion_control: CongestionControl,
    pub data_info: Option<DataInfo>,
    pub attachment: Option<Seq<u8>>,
}

/// The hand-off to the routing layer.
#[derive(Clone, Debug, PartialEq, Eq)]
pub struct SendData {
    pub key_expr: String,
    pub payload: Arc<Vec<u8>>,
    pub channel: Channel,
    pub congestion_control: CongestionControl,
    pub data_info: Option<DataInfo>,
    pub attachment: Option<Vec<u8>>,
}

impl View for SendData {
    type V = SendDataView;

    open spec fn view(&self) -> SendDataView {
        SendDataView {
            key_expr: self.key_expr,
            payload: self.payload@,
            channel: self.channel,
            congestion_control: self.congestion_control,
            data_info: self.data_info,
            attachment: match self.attachment {
                Some(a) => Some(a@),
                None => None,
            },
        }
    }
}

/// What a [`HandleData`] is in contracts.
pub struct HandleDataView {
    pub is_local: bool,
    pub key_expr: String,
    pub data_info: Option<DataInfo>,
    pub payload: Seq<u8>,
    pub local_routing: Option<bool>,
}

impl HandleDataView {
    /// Whether the subscribers of the same process get the sample, in a
    /// session with the given default: what the publisher said decides, the
    /// session's default where it said nothing. A sample that came from
    /// elsewhere is always delivered.
    pub open spec fn reaches_subscribers(self, session_default: bool) -> bool {
        !self.is_local || match self.local_routing {
            Some(forced) => forced,
            None => session_default,
        }
    }
}

/// The hand-off to the subscribers of the same process.
#[derive(Clone, Debug, PartialEq, Eq)]
pub struct HandleData {
    pub is_local: bool,
    pub key_expr: String,
    pub data_info: Option<DataInfo>,
    pub payload: Arc<Vec<u8>>,
    pub local_routing: Option<bool>,
}

impl View for HandleData {
    type V = HandleDataView;

    open spec fn view(&self) -> HandleDataView {
        HandleDataView {
            is_local: self.is_local,
            key_expr: self.key_expr,
            data_info: self.data_info,
            payload: self.payload@,
            local_routing: self.local_routing,
        }
    }
}

impl HandleData {
    /// Whether the subscribers of the same process get the sample, in a
    /// session with the given default.
    pub fn reaches_subscribers(&self, session_default: bool) -> (r: bool)
        ensures
            r == self@.reaches_subscribers(session_default),
    {
        if !self.is_local {
            true
        } else {
            match self.local_routing {
                Some(forced) => forced,
                None => session_default,
            }
        }
    }
}

/// Hands out another pointer to a payload.
///
/// Calls `Arc::clone` of std, which makes a second pointer to the same
/// allocation and copies none of the bytes: the result is the payload it was
/// given.
#[verifier::external_body]
pub(crate) fn share(payload: &Arc<Vec<u8>>) -> (r: Arc<Vec<u8>>)
    ensures
        r == *payload,
{
    Arc::clone(payload)
}

/// What a [`Publication`] is in contracts.
pub struct PublicationView {
    pub remote: SendDataView,
    pub local: HandleDataView,
}

/// The outcome of one write: one hand-off to the routing layer, then one to
/// the subscribers of the same process. Both carry the same metadata and
/// point to the same payload: the bytes are shared, not copied.
#[derive(Clone, Debug, PartialEq, Eq)]
pub struct Publication {
    pub remote: SendData,
    pub local: HandleData,
}

impl View for Publication {
    type V = PublicationView;

    open spec fn view(&self) -> PublicationView {
        PublicationView { remote: self.remote@, local: self.local@ }
    }
}

} // verus!
