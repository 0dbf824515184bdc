use vstd::prelude::*;
use crate::access_control::{OutgoingAccessControl, SessionOutgoingAccessControl};
use crate::sessions::{Address, ConsumerBinding, ProducerBinding, SessionId, SessionPolicy, Sessions};
use crate::trust_options::{
    consumers_after, create_spawned_access_control, declared_binding, register_declared_consumer,
    setup_spawned_session, spawned_access_control, spawned_setup, CiphertextSession,
    TrustOptionsError,
};
use crate::trust_policy::{TrustEveryonePolicy, TrustPolicy};

verus! {

/// Producer bindings after `session`, if any, is recorded for `address`
/// without a parent.
pub open spec fn producers_after(
    producers: Map<Seq<char>, ProducerBinding>,
    address: Seq<char>,
    session: Option<SessionId>,
) -> Map<Seq<char>, ProducerBinding> {
    match session {
        Some(id) => producers.insert(address, ProducerBinding { session_id: id, parent_session_id: None }),
        None => producers,
    }
}

/// Registers the bindings of a one-shot endpoint that receives at `remote`
/// and sends from `internal`.
pub fn register_endpoint_bindings(
    sessions: &mut Sessions,
    consumer: Option<ConsumerBinding>,
    producer: Option<SessionId>,
    remote: &Address,
    internal: &Address,
)
    ensures
        final(sessions)@.consumers == consumers_after(old(sessions)@.consumers, remote@, consumer),
        final(sessions)@.producers == producers_after(old(sessions)@.producers, internal@, producer),
        final(sessions)@.issued_count == old(sessions)@.issued_count,
{
    if let Some(binding) = consumer {
        sessions.add_consumer(remote, &binding.session_id, binding.policy);
    }
    if let Some(session_id) = producer {
        sessions.add_producer(internal, &session_id, None);
    }
}

/// The outgoing access control of a one-shot endpoint that produces
/// `producer`, if any: chained to that session, else open.
pub open spec fn endpoint_access_control(producer: Option<SessionId>) -> OutgoingAccessControl {
    match producer {
        Some(id) => OutgoingAccessControl::Session(
            SessionOutgoingAccessControl { session_id: id, parent_session_id: None },
        ),
        None => OutgoingAccessControl::AllowAll,
    }
}

/// Builds [`endpoint_access_control`].
pub fn create_endpoint_access_control(producer: Option<SessionId>) -> (r: OutgoingAccessControl)
    ensures
        r == endpoint_access_control(producer),
{
    match producer {
        Some(session_id) => OutgoingAccessControl::Session(
            SessionOutgoingAccessControl::new(session_id, None),
        ),
        None => OutgoingAccessControl::AllowAll,
    }
}

/// Trust options for an outgoing TCP connection.
pub struct TcpConnectionTrustOptions<P> {
    /// Binding that messages to the endpoint must satisfy.
    pub consumer_session: Option<ConsumerBinding>,
    /// Session that the endpoint's outgoing messages carry.
    pub producer_session: Option<SessionId>,
    pub trust_policy: P,
}

impl TcpConnectionTrustOptions<TrustEveryonePolicy> {
    /// Options without consumer and producer sessions, trusting everyone.
    pub fn new() -> (r: Self)
        ensures
            r.consumer_session.is_none(),
            r.producer_session.is_none(),
            r.trust_policy == TrustEveryonePolicy,
    {
        TcpConnectionTrustOptions { consumer_session: None, producer_session: None, trust_policy: TrustEveryonePolicy }
    }
}

impl<P: TrustPolicy> TcpConnectionTrustOptions<P> {
    /// Marks the connection as a consumer of exactly `session_id`.
    pub fn as_consumer(self, session_id: &SessionId) -> (r: Self)
        ensures
            r == (TcpConnectionTrustOptions {
                consumer_session: Some(ConsumerBinding { session_id: *session_id, policy: SessionPolicy::ProducerAllowMultiple }),
                producer_session: self.producer_session,
                trust_policy: self.trust_policy,
            }),
    {
        TcpConnectionTrustOptions {
            consumer_session: Some(ConsumerBinding { session_id: *session_id, policy: SessionPolicy::ProducerAllowMultiple }),
            producer_session: self.producer_session,
            trust_policy: self.trust_policy,
        }
    }

    /// Marks the endpoint as a producer of `session_id`: its outgoing
    /// messages carry it.
    pub fn as_producer(self, session_id: &SessionId) -> (r: Self)
        ensures
            r == (TcpConnectionTrustOptions {
                consumer_session: self.consumer_session,
                producer_session: Some(*session_id),
                trust_policy: self.trust_policy,
            }),
    {
        TcpConnectionTrustOptions {
            consumer_session: self.consumer_session,
            producer_session: Some(*session_id),
            trust_policy: self.trust_policy,
        }
    }

    /// These options with `trust_policy` in place of the current policy.
    pub fn with_trust_policy<Q: TrustPolicy>(self, trust_policy: Q) -> (r: TcpConnectionTrustOptions<Q>)
        ensures
            r.consumer_session == self.consumer_session,
            r.producer_session == self.producer_session,
            r.trust_policy == trust_policy,
    {
        TcpConnectionTrustOptions {
            consumer_session: self.consumer_session,
            producer_session: self.producer_session,
            trust_policy,
        }
    }

    /// Registers the declared bindings of the endpoint, which receives at
    /// `remote` and sends from `internal`.
    pub fn setup_session(&self, sessions: &mut Sessions, remote: &Address, internal: &Address)
        ensures
            final(sessions)@.consumers == consumers_after(
                old(sessions)@.consumers,
                remote@,
                self.consumer_session,
            ),
            final(sessions)@.producers == producers_after(
                old(sessions)@.producers,
                internal@,
                self.producer_session,
            ),
            final(sessions)@.issued_count == old(sessions)@.issued_count,
    {
        register_endpoint_bindings(sessions, self.consumer_session, self.producer_session, remote, internal);
    }

    /// The outgoing access control of the endpoint.
    pub fn create_access_control(&self) -> (r: OutgoingAccessControl)
        ensures
            r == endpoint_access_control(self.producer_session),
    {
        create_endpoint_access_control(self.producer_session)
    }
}

/// Trust options for a TCP inlet.
pub struct TcpInletTrustOptions<P> {
    /// Binding that messages to the endpoint must satisfy.
    pub consumer_session: Option<ConsumerBinding>,
    /// Session that the endpoint's outgoing messages carry.
    pub producer_session: Option<SessionId>,
    pub trust_policy: P,
}

impl TcpInletTrustOptions<TrustEveryonePolicy> {
    /// Options without consumer and producer sessions, trusting everyone.
    pub fn new() -> (r: Self)
        ensures
            r.consumer_session.is_none(),
            r.producer_session.is_none(),
            r.trust_policy == TrustEveryonePolicy,
    {
        TcpInletTrustOptions { consumer_session: None, producer_session: None, trust_policy: TrustEveryonePolicy }
    }
}

impl<P: TrustPolicy> TcpInletTrustOptions<P> {
    /// Marks the inlet as a consumer of exactly `session_id`.
    pub fn as_consumer(self, session_id: &SessionId) -> (r: Self)
        ensures
            r == (TcpInletTrustOptions {
                consumer_session: Some(ConsumerBinding { session_id: *session_id, policy: SessionPolicy::ProducerAllowMultiple }),
                producer_session: self.producer_session,
                trust_policy: self.trust_policy,
            }),
    {
        TcpInletTrustOptions {
            consumer_session: Some(ConsumerBinding { session_id: *session_id, policy: SessionPolicy::ProducerAllowMultiple }),
            producer_session: self.producer_session,
            trust_policy: self.trust_policy,
        }
    }

    /// Marks the endpoint as a producer of `session_id`: its outgoing
    /// messages carry it.
    pub fn as_producer(self, session_id: &SessionId) -> (r: Self)
        ensures
            r == (TcpInletTrustOptions {
                consumer_session: self.consumer_session,
                producer_session: Some(*session_id),
                trust_policy: self.trust_policy,
            }),
    {
        TcpInletTrustOptions {
            consumer_session: self.consumer_session,
            producer_session: Some(*session_id),
            trust_policy: self.trust_policy,
        }
    }

    /// These options with `trust_policy` in place of the current policy.
    pub fn with_trust_policy<Q: TrustPolicy>(self, trust_policy: Q) -> (r: TcpInletTrustOptions<Q>)
        ensures
            r.consumer_session == self.consumer_session,
            r.producer_session == self.producer_session,
            r.trust_policy == trust_policy,
    {
        TcpInletTrustOptions {
            consumer_session: self.consumer_session,
            producer_session: self.producer_session,
            trust_policy,
        }
    }

    /// Registers the declared bindings of the endpoint, which receives at
    /// `remote` and sends from `internal`.
    pub fn setup_session(&self, sessions: &mut Sessions, remote: &Address, internal: &Address)
        ensures
            final(sessions)@.consumers == consumers_after(
                old(sessions)@.consumers,
                remote@,
                self.consumer_session,
            ),
            final(sessions)@.producers == producers_after(
                old(sessions)@.producers,
                internal@,
                self.producer_session,
            ),
            final(sessions)@.issued_count == old(sessions)@.issued_count,
    {
        register_endpoint_bindings(sessions, self.consumer_session, self.producer_session, remote, internal);
    }

    /// The outgoing access control of the endpoint.
    pub fn create_access_control(&self) -> (r: OutgoingAccessControl)
        ensures
            r == endpoint_access_control(self.producer_session),
    {
        create_endpoint_access_control(self.producer_session)
    }
}

/// Trust options for a TCP outlet.
pub struct TcpOutletTrustOptions<P> {
    /// Binding that messages to the endpoint must satisfy.
    pub consumer_session: Option<ConsumerBinding>,
    /// Session that the endpoint's outgoing messages carry.
    pub producer_session: Option<SessionId>,
    pub trust_policy: P,
}

impl TcpOutletTrustOptions<TrustEveryonePolicy> {
    /// Options without consumer and producer sessions, trusting everyone.
    pub fn new() -> (r: Self)
        ensures
            r.consumer_session.is_none(),
            r.producer_session.is_none(),
            r.trust_policy == TrustEveryonePolicy,
    {
        TcpOutletTrustOptions { consumer_session: None, producer_session: None, trust_policy: TrustEveryonePolicy }
    }
}

impl<P: TrustPolicy> TcpOutletTrustOptions<P> {
    /// Marks the outlet as a consumer of `session_id` under `policy`.
    pub fn as_consumer(self, session_id: &SessionId, policy: SessionPolicy) -> (r: Self)
        ensures
            r == (TcpOutletTrustOptions {
                consumer_session: Some(ConsumerBinding { session_id: *session_id, policy }),
                producer_session: self.producer_session,
                trust_policy: self.trust_policy,
            }),
    {
        TcpOutletTrustOptions {
            consumer_session: Some(ConsumerBinding { session_id: *session_id, policy }),
            producer_session: self.producer_session,
            trust_policy: self.trust_policy,
        }
    }

    /// Marks the endpoint as a producer of `session_id`: its outgoing
    /// messages carry it.
    pub fn as_producer(self, session_id: &SessionId) -> (r: Self)
        ensures
            r == (TcpOutletTrustOptions {
                consumer_session: self.consumer_session,
                producer_session: Some(*session_id),
                trust_policy: self.trust_policy,
            }),
    {
        TcpOutletTrustOptions {
            consumer_session: self.consumer_session,
            producer_session: Some(*session_id),
            trust_policy: self.trust_policy,
        }
    }

    /// These options with `trust_policy` in place of the current policy.
    pub fn with_trust_policy<Q: TrustPolicy>(self, trust_policy: Q) -> (r: TcpOutletTrustOptions<Q>)
        ensures
            r.consumer_session == self.consumer_session,
            r.producer_session == self.producer_session,
            r.trust_policy == trust_policy,
    {
        TcpOutletTrustOptions {
            consumer_session: self.consumer_session,
            producer_session: self.producer_session,
            trust_policy,
        }
    }

    /// Registers the declared bindings of the endpoint, which receives at
    /// `remote` and sends from `internal`.
    pub fn setup_session(&self, sessions: &mut Sessions, remote: &Address, internal: &Address)
        ensures
            final(sessions)@.consumers == consumers_after(
                old(sessions)@.consumers,
                remote@,
                self.consumer_session,
            ),
            final(sessions)@.producers == producers_after(
                old(sessions)@.producers,
                internal@,
                self.producer_session,
            ),
            final(sessions)@.issued_count == old(sessions)@.issued_count,
    {
        register_endpoint_bindings(sessions, self.consumer_session, self.producer_session, remote, internal);
    }

    /// The outgoing access control of the endpoint.
    pub fn create_access_control(&self) -> (r: OutgoingAccessControl)
        ensures
            r == endpoint_access_control(self.producer_session),
    {
        create_endpoint_access_control(self.producer_session)
    }
}

/// Trust options for a TCP listener.
pub struct TcpListenerTrustOptions<P> {
    /// Session under which the listener's own address is a consumer.
    pub consumer_session: Option<CiphertextSession>,
    /// Spawner session from which every accepted connection's session
    /// descends.
    pub spawner_session: Option<SessionId>,
    pub trust_policy: P,
}

impl TcpListenerTrustOptions<TrustEveryonePolicy> {
    /// Options without consumer and spawner sessions, trusting everyone.
    pub fn new() -> (r: Self)
        ensures
            r.consumer_session.is_none(),
            r.spawner_session.is_none(),
            r.trust_policy == TrustEveryonePolicy,
    {
        TcpListenerTrustOptions {
            consumer_session: None,
            spawner_session: None,
            trust_policy: TrustEveryonePolicy,
        }
    }
}

impl<P: TrustPolicy> TcpListenerTrustOptions<P> {
    /// Marks the listener as a consumer of `session_id` under
    /// `session_policy`.
    pub fn as_consumer(self, session_id: &SessionId, session_policy: SessionPolicy) -> (r: Self)
        ensures
            r == (TcpListenerTrustOptions {
                consumer_session: Some(CiphertextSession { session_id: *session_id, session_policy }),
                spawner_session: self.spawner_session,
                trust_policy: self.trust_policy,
            }),
    {
        TcpListenerTrustOptions {
            consumer_session: Some(CiphertextSession { session_id: *session_id, session_policy }),
            spawner_session: self.spawner_session,
            trust_policy: self.trust_policy,
        }
    }

    /// Marks the listener as a spawner of `session_id`: every accepted
    /// connection gets a fresh session whose parent is `session_id`.
    pub fn as_spawner(self, session_id: &SessionId) -> (r: Self)
        ensures
            r == (TcpListenerTrustOptions {
                consumer_session: self.consumer_session,
                spawner_session: Some(*session_id),
                trust_policy: self.trust_policy,
            }),
    {
        TcpListenerTrustOptions {
            consumer_session: self.consumer_session,
            spawner_session: Some(*session_id),
            trust_policy: self.trust_policy,
        }
    }

    /// These options with `trust_policy` in place of the current policy.
    pub fn with_trust_policy<Q: TrustPolicy>(self, trust_policy: Q) -> (r: TcpListenerTrustOptions<Q>)
        ensures
            r.consumer_session == self.consumer_session,
            r.spawner_session == self.spawner_session,
            r.trust_policy == trust_policy,
    {
        TcpListenerTrustOptions {
            consumer_session: self.consumer_session,
            spawner_session: self.spawner_session,
            trust_policy,
        }
    }

    /// Marks the listener's own address `listener_address` as a consumer
    /// under the declared consumer session and policy, if any.
    pub fn setup_listener_session(&self, sessions: &mut Sessions, listener_address: &Address)
        ensures
            final(sessions)@.consumers == consumers_after(
                old(sessions)@.consumers,
                listener_address@,
                declared_binding(self.consumer_session),
            ),
            final(sessions)@.producers == old(sessions)@.producers,
            final(sessions)@.issued_count == old(sessions)@.issued_count,
    {
        register_declared_consumer(sessions, listener_address, self.consumer_session);
    }

    /// Registers the bindings of a connection accepted by the listener,
    /// which receives at `remote` and sends from `internal`, and whose peer
    /// supplied `producer_session_id`. Returns the accepted connection's
    /// fresh session when the listener is a spawner.
    pub fn setup_session(
        &self,
        sessions: &mut Sessions,
        remote: &Address,
        internal: &Address,
        producer_session_id: Option<SessionId>,
    ) -> (r: Result<Option<SessionId>, TrustOptionsError>)
        requires
            self.consumer_session.is_some() == producer_session_id.is_some()
                && self.spawner_session.is_some() ==> old(sessions)@.can_generate(),
        ensures
            spawned_setup(
                old(sessions)@,
                final(sessions)@,
                self.consumer_session.is_some(),
                self.spawner_session,
                remote@,
                internal@,
                producer_session_id,
                r,
            ),
    {
        setup_spawned_session(
            sessions,
            self.consumer_session.is_some(),
            self.spawner_session,
            remote,
            internal,
            producer_session_id,
        )
    }

    /// The outgoing access control of an accepted connection that carries
    /// `session_id`.
    pub fn create_access_control(&self, session_id: Option<SessionId>) -> (r: Result<
        OutgoingAccessControl,
        TrustOptionsError,
    >)
        ensures
            r == spawned_access_control(self.spawner_session, session_id),
    {
        create_spawned_access_control(self.spawner_session, session_id)
    }
}

/// One hop of a route: the access control of the endpoint that forwards the
/// message, and the address it forwards it to.
#[derive(Clone, Debug)]
pub struct Hop {
    pub access_control: OutgoingAccessControl,
    pub destination: Address,
}

/// Whether every hop of `hops` lets the message through.
pub open spec fn route_allows(consumers: Map<Seq<char>, ConsumerBinding>, hops: Seq<Hop>) -> bool {
    forall|i: int|
        0 <= i < hops.len() ==> #[trigger] hops[i].access_control.authorizes(
            consumers,
            hops[i].destination@,
        )
}

/// Whether a message travelling `hops` is forwarded at every hop; it stops
/// at the first hop that denies it.
pub fn route_authorized(sessions: &Sessions, hops: &Vec<Hop>) -> (r: bool)
    ensures
        r == route_allows(sessions@.consumers, hops@),
{
    let mut i: usize = 0;
    while i < hops.len()
        invariant
            0 <= i <= hops@.len(),
            route_allows(sessions@.consumers, hops@.subrange(0, i as int)),
        decreases hops@.len() - i,
    {
        let hop = &hops[i];
        if !hop.access_control.is_authorized(sessions, &hop.destination) {
            assert(!hops@[i as int].access_control.authorizes(
                sessions@.consumers,
                hops@[i as int].destination@,
            ));
            return false;
        }
        assert(hops@.subrange(0, i + 1) == hops@.subrange(0, i as int).push(hops@[i as int]));
        i = i + 1;
    }
    assert(hops@.subrange(0, i as int) == hops@);
    true
}

} // verus!
