//! Builders: settings gathered first, effect on resolution only.
//!
//! A setter changes what the builder holds and nothing else. Resolution
//! consumes the builder, so each builder is resolved at most once.

use vstd::prelude::*;
use vstd::std_specs::convert::IntoSpec;
use crate::dispatch::{Publication, PublicationView, PublishError, SessionSnapshot};
use crate::encoding::Encoding;
use crate::publisher::Publisher;
use crate::qos::{CongestionControl, Priority};
use crate::sample::{SampleKind, Value, ValueView};

verus! {

/// A builder for a [`Publisher`].
#[derive(Clone, Debug, PartialEq, Eq)]
pub struct PublishBuilder {
    pub publisher: Publisher,
}

impl PublishBuilder {
    /// This builder with another congestion control.
    pub open spec fn with_congestion_control(self, congestion_control: CongestionControl) -> Self {
        PublishBuilder { publisher: self.publisher.with_congestion_control(congestion_control) }
    }

    /// This builder with another priority.
    pub open spec fn with_priority(self, priority: Priority) -> Self {
        PublishBuilder { publisher: self.publisher.with_priority(priority) }
    }

    /// This builder with local delivery forced on or off.
    pub open spec fn with_local_routing(self, local_routing: bool) -> Self {
        PublishBuilder { publisher: self.publisher.with_local_routing(local_routing) }
    }

    /// The publisher this builder resolves to.
    pub open spec fn spec_res(self) -> Result<Publisher, PublishError> {
        Ok(self.publisher)
    }

    /// Changes the congestion control applied when routing the data.
    pub fn congestion_control(self, congestion_control: CongestionControl) -> (r: Self)
        ensures
            r == self.with_congestion_control(congestion_control),
    {
        PublishBuilder { publisher: self.publisher.congestion_control(congestion_control) }
    }

    /// Changes the priority of the written data.
    pub fn priority(self, priority: Priority) -> (r: Self)
        ensures
            r == self.with_priority(priority),
    {
        PublishBuilder { publisher: self.publisher.priority(priority) }
    }

    /// Forces local delivery on or off.
    pub fn local_routing(self, local_routing: bool) -> (r: Self)
        ensures
            r == self.with_local_routing(local_routing),
    {
        PublishBuilder { publisher: self.publisher.local_routing(local_routing) }
    }

    /// Resolves to the publisher as configured. Nothing is sent and nothing
    /// is registered: resolution always succeeds.
    pub fn res_sync(self) -> (r: Result<Publisher, PublishError>)
        ensures
            r == self.spec_res(),
    {
        Ok(self.publisher)
    }
}

/// A builder for one put or delete.
#[derive(Clone, Debug, PartialEq, Eq)]
pub struct PutBuilder {
    pub publisher: Publisher,
    pub value: Value,
    pub kind: SampleKind,
}

/// A builder for one delete: a [`PutBuilder`] of kind `Delete`.
pub type DeleteBuilder = PutBuilder;

impl PutBuilder {
    /// This builder with another congestion control.
    pub open spec fn with_congestion_control(self, congestion_control: CongestionControl) -> Self {
        PutBuilder { publisher: self.publisher.with_congestion_control(congestion_control), ..self }
    }

    /// This builder with another priority.
    pub open spec fn with_priority(self, priority: Priority) -> Self {
        PutBuilder { publisher: self.publisher.with_priority(priority), ..self }
    }

    /// This builder with local delivery forced on or off.
    pub open spec fn with_local_routing(self, local_routing: bool) -> Self {
        PutBuilder { publisher: self.publisher.with_local_routing(local_routing), ..self }
    }

    /// This builder with another encoding for its value.
    pub open spec fn with_encoding(self, encoding: Encoding) -> Self {
        PutBuilder { value: Value { payload: self.value.payload, encoding }, ..self }
    }

    /// This builder with another kind.
    pub open spec fn with_kind(self, kind: SampleKind) -> Self {
        PutBuilder { kind, ..self }
    }

    /// What this builder resolves to in the given session: the write of its
    /// value, with its kind, through its publisher.
    pub open spec fn spec_res(self, session: SessionSnapshot) -> Result<
        PublicationView,
        PublishError,
    > {
        self.publisher.spec_write(session, self.kind, self.value@)
    }

    /// Changes the encoding of the written data.
    pub fn encoding<IntoEncoding: Into<Encoding>>(self, encoding: IntoEncoding) -> (r: Self)
        ensures
            r.publisher == self.publisher,
            r.kind == self.kind,
            r.value.payload == self.value.payload,
            IntoEncoding::obeys_into_spec() ==> r == self.with_encoding(encoding.into_spec()),
    {
        let PutBuilder { publisher, value, kind } = self;
        PutBuilder { publisher, value: value.encoding(encoding.into()), kind }
    }

    /// Changes the congestion control applied when routing the data.
    pub fn congestion_control(self, congestion_control: CongestionControl) -> (r: Self)
        ensures
            r == self.with_congestion_control(congestion_control),
    {
        let PutBuilder { publisher, value, kind } = self;
        PutBuilder { publisher: publisher.congestion_control(congestion_control), value, kind }
    }

    /// Changes the priority of the written data.
    pub fn priority(self, priority: Priority) -> (r: Self)
        ensures
            r == self.with_priority(priority),
    {
        let PutBuilder { publisher, value, kind } = self;
        PutBuilder { publisher: publisher.priority(priority), value, kind }
    }

    /// Forces local delivery on or off.
    pub fn local_routing(self, local_routing: bool) -> (r: Self)
        ensures
            r == self.with_local_routing(local_routing),
    {
        let PutBuilder { publisher, value, kind } = self;
        PutBuilder { publisher: publisher.local_routing(local_routing), value, kind }
    }

    /// Changes the kind of the written sample.
    pub fn kind(self, kind: SampleKind) -> (r: Self)
        ensures
            r == self.with_kind(kind),
    {
        let PutBuilder { publisher, value, kind: _ } = self;
        PutBuilder { publisher, value, kind }
    }

    /// Resolves by writing the value through the publisher, as
    /// [`Publisher::write`] does.
    pub fn res_sync(self, session: &SessionSnapshot) -> (r: Result<Publication, PublishError>)
        ensures
            r is Ok <==> session.routing_ready,
            r matches Ok(p) ==> Ok::<PublicationView, PublishError>(p@) == self.spec_res(*session),
            r matches Err(e) ==> Err::<PublicationView, PublishError>(e) == self.spec_res(
                *session,
            ),
    {
        let PutBuilder { publisher, value, kind } = self;
        publisher.write(session, kind, value)
    }
}

/// Starts a publisher on `key_expr` with the default settings.
pub fn publish(key_expr: String) -> (r: PublishBuilder)
    ensures
        r.publisher == Publisher::spec_new(key_expr),
{
    PublishBuilder { publisher: Publisher::new(key_expr) }
}

/// Starts a put of `value` on `key_expr` with the default settings.
pub fn put(key_expr: String, value: Value) -> (r: PutBuilder)
    ensures
        r == (PutBuilder {
            publisher: Publisher::spec_new(key_expr),
            value,
            kind: SampleKind::Put,
        }),
{
    PutBuilder { publisher: Publisher::new(key_expr), value, kind: SampleKind::Put }
}

/// Starts a delete on `key_expr` with the default settings: no payload, the
/// default encoding.
pub fn delete(key_expr: String) -> (r: DeleteBuilder)
    ensures
        r.publisher == Publisher::spec_new(key_expr),
        r.kind == SampleKind::Delete,
        r.value@ == (ValueView {
            payload: Seq::<u8>::empty(),
            encoding: Encoding::spec_default(),
        }),
{
    PutBuilder { publisher: Publisher::new(key_expr), value: Value::empty(), kind: SampleKind::Delete }
}

/// Setters of different settings can be chained in any order: the builder,
/// and so the publisher it resolves to, is the same.
pub proof fn lemma_publish_setters_commute(
    builder: PublishBuilder,
    congestion_control: CongestionControl,
    priority: Priority,
    local_routing: bool,
)
    ensures
        builder.with_priority(priority).with_congestion_control(congestion_control)
            == builder.with_congestion_control(congestion_control).with_priority(priority),
        builder.with_priority(priority).with_local_routing(local_routing)
            == builder.with_local_routing(local_routing).with_priority(priority),
        builder.with_congestion_control(congestion_control).with_local_routing(local_routing)
            == builder.with_local_routing(local_routing).with_congestion_control(
            congestion_control,
        ),
        builder.with_priority(priority).with_congestion_control(congestion_control).spec_res()
            == builder.with_congestion_control(congestion_control).with_priority(
            priority,
        ).spec_res(),
{
}

/// The same holds of the setters of a put: any two of different settings
/// commute, and the write that the builder resolves to is the same.
pub proof fn lemma_put_setters_commute(
    builder: PutBuilder,
    session: SessionSnapshot,
    congestion_control: CongestionControl,
    priority: Priority,
    local_routing: bool,
    encoding: Encoding,
    kind: SampleKind,
)
    ensures
        builder.with_priority(priority).with_congestion_control(congestion_control)
            == builder.with_congestion_control(congestion_control).with_priority(priority),
        builder.with_priority(priority).with_local_routing(local_routing)
            == builder.with_local_routing(local_routing).with_priority(priority),
        builder.with_congestion_control(congestion_control).with_local_routing(local_routing)
            == builder.with_local_routing(local_routing).with_congestion_control(
            congestion_control,
        ),
        builder.with_encoding(encoding).with_kind(kind) == builder.with_kind(kind).with_encoding(
            encoding,
        ),
        builder.with_encoding(encoding).with_priority(priority) == builder.with_priority(
            priority,
        ).with_encoding(encoding),
        builder.with_kind(kind).with_congestion_control(congestion_control)
            == builder.with_congestion_control(congestion_control).with_kind(kind),
        builder.with_priority(priority).with_congestion_control(congestion_control).spec_res(
            session,
        ) == builder.with_congestion_control(congestion_control).with_priority(priority).spec_res(
            session,
        ),
{
}

} // verus!
