//! Publishers: a key expression and the settings its samples are sent with.

use std::sync::Arc;
use vstd::prelude::*;
use vstd::std_specs::convert::IntoSpec;
use crate::dispatch::{
    share, HandleData, HandleDataView, Publication, PublicationView, PublishError, SendData,
    SendDataView, SessionSnapshot, SinkError,
};
use crate::encoding::Encoding;
use crate::metadata::DataInfo;
use crate::qos::{Channel, CongestionControl, Priority};
use crate::sample::{SampleKind, Value, ValueView};

verus! {

/// A publisher on one key expression. The key expression never changes; the
/// settings change only through the setters, which hand the publisher back.
#[derive(Clone, Debug, PartialEq, Eq)]
pub struct Publisher {
    pub key_expr: String,
    pub congestion_control: CongestionControl,
    pub priority: Priority,
    /// `None` leaves local delivery to the session's default.
    pub local_routing: Option<bool>,
}

impl Publisher {
    /// The publisher on a key expression before any setting is changed.
    pub open spec fn spec_new(key_expr: String) -> Publisher {
        Publisher {
            key_expr,
            congestion_control: CongestionControl::spec_default(),
            priority: Priority::spec_default(),
            local_routing: None,
        }
    }

    /// This publisher with another congestion control.
    pub open spec fn with_congestion_control(self, congestion_control: CongestionControl) -> Publisher {
        Publisher { congestion_control, ..self }
    }

    /// This publisher with another priority.
    pub open spec fn with_priority(self, priority: Priority) -> Publisher {
        Publisher { priority, ..self }
    }

    /// This publisher with local delivery forced on or off.
    pub open spec fn with_local_routing(self, local_routing: bool) -> Publisher {
        Publisher { local_routing: Some(local_routing), ..self }
    }

    /// The two hand-offs of a write that the session is ready for.
    pub open spec fn spec_publication(
        self,
        session: SessionSnapshot,
        kind: SampleKind,
        value: ValueView,
    ) -> PublicationView {
        let data_info = DataInfo::spec_for_sample(kind, value.encoding, session.timestamp);
        PublicationView {
            remote: SendDataView {
                key_expr: self.key_expr,
                payload: value.payload,
                channel: Channel::spec_for_publication(self.priority),
                congestion_control: self.congestion_control,
                data_info,
                attachment: None,
            },
            local: HandleDataView {
                is_local: true,
                key_expr: self.key_expr,
                data_info,
                payload: value.payload,
                local_routing: self.local_routing,
            },
        }
    }

    /// What a write returns: the hand-offs, or the reason there are none.
    pub open spec fn spec_write(
        self,
        session: SessionSnapshot,
        kind: SampleKind,
        value: ValueView,
    ) -> Result<PublicationView, PublishError> {
        if session.routing_ready {
            Ok(self.spec_publication(session, kind, value))
        } else {
            Err(PublishError::SessionNotReady)
        }
    }

    /// A publisher on `key_expr` with the default settings: samples are
    /// dropped under congestion, sent at priority `Data`, and delivered
    /// locally as the session decides.
    pub fn new(key_expr: String) -> (r: Publisher)
        ensures
            r == Self::spec_new(key_expr),
    {
        Publisher {
            key_expr,
            congestion_control: CongestionControl::Drop,
            priority: Priority::Data,
            local_routing: None,
        }
    }

    /// Changes the congestion control applied when routing the data.
    pub fn congestion_control(self, congestion_control: CongestionControl) -> (r: Publisher)
        ensures
            r == self.with_congestion_control(congestion_control),
    {
        let mut publisher = self;
        publisher.congestion_control = congestion_control;
        publisher
    }

    /// Changes the priority of the written data.
    pub fn priority(self, priority: Priority) -> (r: Publisher)
        ensures
            r == self.with_priority(priority),
    {
        let mut publisher = self;
        publisher.priority = priority;
        publisher
    }

    /// Forces local delivery on or off, whatever the session's default.
    pub fn local_routing(self, local_routing: bool) -> (r: Publisher)
        ensures
            r == self.with_local_routing(local_routing),
    {
        let mut publisher = self;
        publisher.local_routing = Some(local_routing);
        publisher
    }

    /// Turns a value into a sample and decides its two hand-offs.
    ///
    /// Fails with `SessionNotReady` exactly when the session has no handle to
    /// the routing layer. Otherwise the result holds one hand-off to the
    /// routing layer, on a reliable channel at the publisher's priority and
    /// under its congestion control, without attachment, and one hand-off to
    /// local delivery, marked as a local write and carrying the publisher's
    /// local-routing override. Both carry the key expression, the payload as
    /// it was given, shared between them, and the same metadata. The
    /// publisher is not changed.
    pub fn write(&self, session: &SessionSnapshot, kind: SampleKind, value: Value) -> (r: Result<
        Publication,
        PublishError,
    >)
        ensures
            r is Ok <==> session.routing_ready,
            r matches Ok(p) ==> Ok::<PublicationView, PublishError>(p@) == self.spec_write(
                *session,
                kind,
                value@,
            ),
            r matches Ok(p) ==> p.remote.payload == p.local.payload,
            r matches Err(e) ==> Err::<PublicationView, PublishError>(e) == self.spec_write(
                *session,
                kind,
                value@,
            ),
    {
        if !session.routing_ready {
            return Err(PublishError::SessionNotReady);
        }
        let Value { payload, encoding } = value;
        let data_info = DataInfo::for_sample(kind, encoding, session.timestamp);
        let payload = Arc::new(payload);
        let remote = SendData {
            key_expr: self.key_expr.clone(),
            payload: share(&payload),
            channel: Channel::for_publication(self.priority),
            congestion_control: self.congestion_control,
            data_info: data_info.clone(),
            attachment: None,
        };
        let local = HandleData {
            is_local: true,
            key_expr: self.key_expr.clone(),
            data_info,
            payload,
            local_routing: self.local_routing,
        };
        Ok(Publication { remote, local })
    }

    /// Sends a value: a write of kind `Put`.
    pub fn put<IntoValue: Into<Value>>(&self, session: &SessionSnapshot, value: IntoValue) -> (r:
        Result<Publication, PublishError>)
        ensures
            r is Ok <==> session.routing_ready,
            IntoValue::obeys_into_spec() ==> (r matches Ok(p) ==> Ok::<PublicationView, PublishError>(
                p@,
            ) == self.spec_write(*session, SampleKind::Put, value.into_spec()@)),
            r matches Err(e) ==> e == PublishError::SessionNotReady,
    {
        self.write(session, SampleKind::Put, value.into())
    }

    /// Retracts the value at the key: a write of kind `Delete` with an empty
    /// payload and the default encoding.
    pub fn delete(&self, session: &SessionSnapshot) -> (r: Result<Publication, PublishError>)
        ensures
            r is Ok <==> session.routing_ready,
            r matches Ok(p) ==> Ok::<PublicationView, PublishError>(p@) == self.spec_write(
                *session,
                SampleKind::Delete,
                ValueView { payload: Seq::<u8>::empty(), encoding: Encoding::spec_default() },
            ),
            r matches Err(e) ==> e == PublishError::SessionNotReady,
    {
        self.write(session, SampleKind::Delete, Value::empty())
    }

    /// Whether the publisher takes another pushed item: always, since
    /// nothing is buffered and a push completes before it returns.
    pub fn poll_ready(&self) -> (r: Result<(), SinkError>)
        ensures
            r == Ok::<(), SinkError>(()),
    {
        Ok(())
    }

    /// Takes a pushed item: a put of it, with the failure of the write, if
    /// any, wrapped as the push target's error.
    pub fn start_send<IntoValue: Into<Value>>(&self, session: &SessionSnapshot, item: IntoValue) -> (r:
        Result<Publication, SinkError>)
        ensures
            r is Ok <==> session.routing_ready,
            IntoValue::obeys_into_spec() ==> (r matches Ok(p) ==> Ok::<PublicationView, PublishError>(
                p@,
            ) == self.spec_write(*session, SampleKind::Put, item.into_spec()@)),
            r matches Err(e) ==> e == SinkError::Write(PublishError::SessionNotReady),
    {
        match self.put(session, item) {
            Ok(publication) => Ok(publication),
            Err(e) => Err(SinkError::Write(e)),
        }
    }

    /// Flushes the push target: there is nothing to flush.
    pub fn poll_flush(&self) -> (r: Result<(), SinkError>)
        ensures
            r == Ok::<(), SinkError>(()),
    {
        Ok(())
    }

    /// Closes the push target: there is nothing to release.
    pub fn poll_close(&self) -> (r: Result<(), SinkError>)
        ensures
            r == Ok::<(), SinkError>(()),
    {
        Ok(())
    }
}

/// A write reaches the local delivery path whatever the routing layer is
/// told: the local hand-off exists whenever the write succeeds, is marked as
/// a local write, and does not depend on the congestion control or the
/// priority of the publisher.
pub proof fn lemma_local_hand_off_ignores_routing_settings(
    publisher: Publisher,
    session: SessionSnapshot,
    kind: SampleKind,
    value: ValueView,
    congestion_control: CongestionControl,
    priority: Priority,
)
    requires
        session.routing_ready,
    ensures
        publisher.spec_write(session, kind, value) is Ok,
        publisher.spec_write(session, kind, value).unwrap().local.is_local,
        publisher.spec_write(session, kind, value).unwrap().local.payload == value.payload,
        publisher.spec_write(session, kind, value).unwrap().local.payload
            == publisher.spec_write(session, kind, value).unwrap().remote.payload,
        publisher.spec_write(session, kind, value).unwrap().local.data_info
            == publisher.spec_write(session, kind, value).unwrap().remote.data_info,
        publisher.with_congestion_control(congestion_control).with_priority(priority).spec_write(
            session,
            kind,
            value,
        ).unwrap().local == publisher.spec_write(session, kind, value).unwrap().local,
{
}

/// What a publisher says about local routing decides: forced off, its
/// samples never reach the subscribers of the same process, even in a session
/// that delivers locally by default; forced on, they always do. A publisher
/// that says nothing follows the session's default.
pub proof fn lemma_local_routing_override(
    publisher: Publisher,
    session: SessionSnapshot,
    kind: SampleKind,
    value: ValueView,
    forced: bool,
)
    ensures
        publisher.with_local_routing(forced).spec_publication(
            session,
            kind,
            value,
        ).local.reaches_subscribers(session.local_routing) == forced,
        publisher.local_routing is None ==> publisher.spec_publication(
            session,
            kind,
            value,
        ).local.reaches_subscribers(session.local_routing) == session.local_routing,
{
}

} // verus!
