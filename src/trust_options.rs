use vstd::prelude::*;
use crate::access_control::{OutgoingAccessControl, SessionOutgoingAccessControl};
use crate::sessions::{
    issues, Address, ConsumerBinding, ProducerBinding, SessionId, SessionPolicy, Sessions,
    SessionsView,
};
use crate::trust_policy::{TrustEveryonePolicy, TrustPolicy};

verus! {

/// Error of a trust configuration.
#[derive(Clone, Copy, Debug, PartialEq, Eq, Structural)]
pub enum TrustOptionsError {
    /// A listener declares a consumer session without the producer session
    /// of its peer, or receives one without declaring a consumer session.
    SessionsInconsistency,
}

/// Addresses of a secure channel's decryptor.
#[derive(Clone, Debug)]
pub struct Addresses {
    /// Where the peer's encrypted messages arrive.
    pub decryptor_remote: Address,
    /// Where decrypted messages leave from.
    pub decryptor_internal: Address,
}

impl Addresses {
    pub fn new(decryptor_remote: Address, decryptor_internal: Address) -> (r: Self)
        ensures
            r.decryptor_remote == decryptor_remote,
            r.decryptor_internal == decryptor_internal,
    {
        Addresses { decryptor_remote, decryptor_internal }
    }
}

/// Access control of a secure channel's decryptor.
#[derive(Clone, Copy, Debug, PartialEq, Eq, Structural)]
pub struct SecureChannelAccessControl {
    pub decryptor_outgoing_access_control: OutgoingAccessControl,
}

/// Trust options for a secure channel.
pub struct SecureChannelTrustOptions<P> {
    /// Session whose producers may send to this channel.
    pub consumer_session: Option<SessionId>,
    /// Session that this channel's outgoing messages carry.
    pub producer_session: Option<SessionId>,
    pub trust_policy: P,
}

impl SecureChannelTrustOptions<TrustEveryonePolicy> {
    /// Options without consumer and producer sessions, trusting everyone.
    pub fn new() -> (r: Self)
        ensures
            r.consumer_session.is_none(),
            r.producer_session.is_none(),
            r.trust_policy == TrustEveryonePolicy,
    {
        SecureChannelTrustOptions {
            consumer_session: None,
            producer_session: None,
            trust_policy: TrustEveryonePolicy,
        }
    }
}

impl Default for SecureChannelTrustOptions<TrustEveryonePolicy> {
    fn default() -> (r: Self)
        ensures
            r.consumer_session.is_none(),
            r.producer_session.is_none(),
            r.trust_policy == TrustEveryonePolicy,
    {
        Self::new()
    }
}

impl<P: TrustPolicy> SecureChannelTrustOptions<P> {
    /// These options with `session_id` as the consumer session.
    pub open spec fn with_consumer(self, session_id: SessionId) -> Self {
        SecureChannelTrustOptions {
            consumer_session: Some(session_id),
            producer_session: self.producer_session,
            trust_policy: self.trust_policy,
        }
    }

    /// These options with `session_id` as the producer session.
    pub open spec fn with_producer(self, session_id: SessionId) -> Self {
        SecureChannelTrustOptions {
            consumer_session: self.consumer_session,
            producer_session: Some(session_id),
            trust_policy: self.trust_policy,
        }
    }

    /// Consumer bindings after these options were set up on `addresses`.
    pub open spec fn setup_consumers(
        self,
        consumers: Map<Seq<char>, ConsumerBinding>,
        addresses: Addresses,
    ) -> Map<Seq<char>, ConsumerBinding> {
        match self.consumer_session {
            Some(id) => consumers.insert(
                addresses.decryptor_remote@,
                ConsumerBinding { session_id: id, policy: SessionPolicy::ProducerAllowMultiple },
            ),
            None => consumers,
        }
    }

    /// Producer bindings after these options were set up on `addresses`.
    pub open spec fn setup_producers(
        self,
        producers: Map<Seq<char>, ProducerBinding>,
        addresses: Addresses,
    ) -> Map<Seq<char>, ProducerBinding> {
        match self.producer_session {
            Some(id) => producers.insert(
                addresses.decryptor_internal@,
                ProducerBinding { session_id: id, parent_session_id: None },
            ),
            None => producers,
        }
    }

    /// The access control that these options give a channel.
    pub open spec fn access_control(self) -> SecureChannelAccessControl {
        SecureChannelAccessControl {
            decryptor_outgoing_access_control: match self.producer_session {
                Some(id) => OutgoingAccessControl::Session(
                    SessionOutgoingAccessControl { session_id: id, parent_session_id: None },
                ),
                None => OutgoingAccessControl::AllowAll,
            },
        }
    }

    /// Options without sessions, with the given trust policy.
    pub fn from_trust_policy(trust_policy: P) -> (r: Self)
        ensures
            r.consumer_session.is_none(),
            r.producer_session.is_none(),
            r.trust_policy == trust_policy,
    {
        SecureChannelTrustOptions { consumer_session: None, producer_session: None, trust_policy }
    }

    /// Marks the channel as a consumer of `session_id`: only messages
    /// carrying it may reach the channel.
    pub fn as_consumer(self, session_id: &SessionId) -> (r: Self)
        ensures
            r == self.with_consumer(*session_id),
    {
        SecureChannelTrustOptions {
            consumer_session: Some(*session_id),
            producer_session: self.producer_session,
            trust_policy: self.trust_policy,
        }
    }

    /// Marks the channel as a producer of `session_id`: its outgoing
    /// messages carry it.
    pub fn as_producer(self, session_id: &SessionId) -> (r: Self)
        ensures
            r == self.with_producer(*session_id),
    {
        SecureChannelTrustOptions {
            consumer_session: self.consumer_session,
            producer_session: Some(*session_id),
            trust_policy: self.trust_policy,
        }
    }

    /// These options with `trust_policy` in place of the current policy.
    pub fn with_trust_policy<Q: TrustPolicy>(self, trust_policy: Q) -> (r: SecureChannelTrustOptions<Q>)
        ensures
            r.consumer_session == self.consumer_session,
            r.producer_session == self.producer_session,
            r.trust_policy == trust_policy,
    {
        SecureChannelTrustOptions {
            consumer_session: self.consumer_session,
            producer_session: self.producer_session,
            trust_policy,
        }
    }

    /// Registers the declared bindings of a channel with `addresses`.
    pub fn setup_session(&self, sessions: &mut Sessions, addresses: &Addresses)
        ensures
            final(sessions)@.consumers == self.setup_consumers(old(sessions)@.consumers, *addresses),
            final(sessions)@.producers == self.setup_producers(old(sessions)@.producers, *addresses),
            final(sessions)@.issued_count == old(sessions)@.issued_count,
    {
        if let Some(session_id) = &self.consumer_session {
            sessions.add_consumer(
                &addresses.decryptor_remote,
                session_id,
                SessionPolicy::ProducerAllowMultiple,
            );
        }
        if let Some(session_id) = &self.producer_session {
            sessions.add_producer(&addresses.decryptor_internal, session_id, None);
        }
    }

    /// The access control of a channel built with these options.
    pub fn create_access_control(&self) -> (r: SecureChannelAccessControl)
        ensures
            r == self.access_control(),
    {
        match &self.producer_session {
            Some(session_id) => SecureChannelAccessControl {
                decryptor_outgoing_access_control: OutgoingAccessControl::Session(
                    SessionOutgoingAccessControl::new(*session_id, None),
                ),
            },
            None => SecureChannelAccessControl {
                decryptor_outgoing_access_control: OutgoingAccessControl::AllowAll,
            },
        }
    }
}

/// Consumer bindings after `binding`, if any, is registered at `address`.
pub open spec fn consumers_after(
    consumers: Map<Seq<char>, ConsumerBinding>,
    address: Seq<char>,
    binding: Option<ConsumerBinding>,
) -> Map<Seq<char>, ConsumerBinding> {
    match binding {
        Some(b) => consumers.insert(address, b),
        None => consumers,
    }
}

/// The binding that a listener's consumer declaration asks for.
pub open spec fn declared_binding(declared: Option<CiphertextSession>) -> Option<ConsumerBinding> {
    match declared {
        Some(cs) => Some(ConsumerBinding { session_id: cs.session_id, policy: cs.session_policy }),
        None => None,
    }
}

/// Registers the binding that `declared` asks for at `address`.
pub fn register_declared_consumer(
    sessions: &mut Sessions,
    address: &Address,
    declared: Option<CiphertextSession>,
)
    ensures
        final(sessions)@.consumers == consumers_after(
            old(sessions)@.consumers,
            address@,
            declared_binding(declared),
        ),
        final(sessions)@.producers == old(sessions)@.producers,
        final(sessions)@.issued_count == old(sessions)@.issued_count,
{
    if let Some(cs) = declared {
        sessions.add_consumer(address, &cs.session_id, cs.session_policy);
    }
}

/// How a spawning listener's setup takes registry state `pre` to `post`
/// and what it returns, for a spawned endpoint that receives at `remote`
/// and sends from `internal`, whose peer supplied `producer_session_id`.
/// A consumer declaration without a supplied producer session, or the
/// reverse, is an inconsistency that leaves the registry as it was.
/// Otherwise the supplied session may reach `remote`, and a spawner mints a
/// fresh session for `internal`, chained to the spawner session.
pub open spec fn spawned_setup(
    pre: SessionsView,
    post: SessionsView,
    consumer_declared: bool,
    spawner: Option<SessionId>,
    remote: Seq<char>,
    internal: Seq<char>,
    producer_session_id: Option<SessionId>,
    r: Result<Option<SessionId>, TrustOptionsError>,
) -> bool {
    if consumer_declared != producer_session_id.is_some() {
        &&& r == Err::<Option<SessionId>, TrustOptionsError>(
            TrustOptionsError::SessionsInconsistency,
        )
        &&& post == pre
    } else {
        &&& post.consumers == consumers_after(
            pre.consumers,
            remote,
            match producer_session_id {
                Some(id) => Some(
                    ConsumerBinding { session_id: id, policy: SessionPolicy::ProducerAllowMultiple },
                ),
                None => None,
            },
        )
        &&& match spawner {
            Some(spawner_id) => {
                let id = SessionId { value: pre.issued_count as u64 };
                &&& r == Ok::<Option<SessionId>, TrustOptionsError>(Some(id))
                &&& issues(pre, id, post)
                &&& post.producers == pre.producers.insert(
                    internal,
                    ProducerBinding { session_id: id, parent_session_id: Some(spawner_id) },
                )
            },
            None => {
                &&& r == Ok::<Option<SessionId>, TrustOptionsError>(None)
                &&& post.producers == pre.producers
                &&& post.issued_count == pre.issued_count
            },
        }
    }
}

/// Setup of an endpoint spawned by a listener: see [`spawned_setup`].
pub fn setup_spawned_session(
    sessions: &mut Sessions,
    consumer_declared: bool,
    spawner: Option<SessionId>,
    remote: &Address,
    internal: &Address,
    producer_session_id: Option<SessionId>,
) -> (r: Result<Option<SessionId>, TrustOptionsError>)
    requires
        consumer_declared == producer_session_id.is_some() && spawner.is_some()
            ==> old(sessions)@.can_generate(),
    ensures
        spawned_setup(
            old(sessions)@,
            final(sessions)@,
            consumer_declared,
            spawner,
            remote@,
            internal@,
            producer_session_id,
            r,
        ),
{
    match (consumer_declared, producer_session_id) {
        (true, Some(producer_session_id)) => {
            sessions.add_consumer(remote, &producer_session_id, SessionPolicy::ProducerAllowMultiple);
        },
        (false, None) => {},
        _ => {
            return Err(TrustOptionsError::SessionsInconsistency);
        },
    }
    match spawner {
        Some(spawner_session_id) => {
            let session_id = sessions.generate_session_id();
            sessions.add_producer(internal, &session_id, Some(&spawner_session_id));
            Ok(Some(session_id))
        },
        None => Ok(None),
    }
}

/// The outgoing access control of an endpoint spawned by a listener with
/// spawner session `spawner` that carries `session_id`: chained to the
/// spawner when both are present, open when both are absent, an
/// inconsistency otherwise.
pub open spec fn spawned_access_control(
    spawner: Option<SessionId>,
    session_id: Option<SessionId>,
) -> Result<OutgoingAccessControl, TrustOptionsError> {
    match (spawner, session_id) {
        (Some(spawner_id), Some(id)) => Ok(
            OutgoingAccessControl::Session(
                SessionOutgoingAccessControl { session_id: id, parent_session_id: Some(spawner_id) },
            ),
        ),
        (None, None) => Ok(OutgoingAccessControl::AllowAll),
        _ => Err(TrustOptionsError::SessionsInconsistency),
    }
}

/// Builds [`spawned_access_control`].
pub fn create_spawned_access_control(
    spawner: Option<SessionId>,
    session_id: Option<SessionId>,
) -> (r: Result<OutgoingAccessControl, TrustOptionsError>)
    ensures
        r == spawned_access_control(spawner, session_id),
{
    match (spawner, session_id) {
        (Some(spawner_session_id), Some(session_id)) => Ok(
            OutgoingAccessControl::Session(
                SessionOutgoingAccessControl::new(session_id, Some(spawner_session_id)),
            ),
        ),
        (None, None) => Ok(OutgoingAccessControl::AllowAll),
        _ => Err(TrustOptionsError::SessionsInconsistency),
    }
}

/// Consumer session declared by a listener.
#[derive(Clone, Copy, Debug, PartialEq, Eq, Structural)]
pub struct CiphertextSession {
    pub session_id: SessionId,
    pub session_policy: SessionPolicy,
}

/// Trust options for a secure channel listener.
pub struct SecureChannelListenerTrustOptions<P> {
    /// Session under which the listener's own address is a consumer.
    pub consumer_session: Option<CiphertextSession>,
    /// Spawner session from which every spawned channel's session descends.
    pub channels_producer_session: Option<SessionId>,
    pub trust_policy: P,
}

impl SecureChannelListenerTrustOptions<TrustEveryonePolicy> {
    /// Options without consumer and spawner sessions, trusting everyone.
    pub fn new() -> (r: Self)
        ensures
            r.consumer_session.is_none(),
            r.channels_producer_session.is_none(),
            r.trust_policy == TrustEveryonePolicy,
    {
        SecureChannelListenerTrustOptions {
            consumer_session: None,
            channels_producer_session: None,
            trust_policy: TrustEveryonePolicy,
        }
    }
}

impl Default for SecureChannelListenerTrustOptions<TrustEveryonePolicy> {
    fn default() -> (r: Self)
        ensures
            r.consumer_session.is_none(),
            r.channels_producer_session.is_none(),
            r.trust_policy == TrustEveryonePolicy,
    {
        Self::new()
    }
}

impl<P: TrustPolicy> SecureChannelListenerTrustOptions<P> {
    /// These options with the given consumer session.
    pub open spec fn with_consumer(self, session_id: SessionId, policy: SessionPolicy) -> Self {
        SecureChannelListenerTrustOptions {
            consumer_session: Some(CiphertextSession { session_id, session_policy: policy }),
            channels_producer_session: self.channels_producer_session,
            trust_policy: self.trust_policy,
        }
    }

    /// These options with `session_id` as the spawner session.
    pub open spec fn with_spawner(self, session_id: SessionId) -> Self {
        SecureChannelListenerTrustOptions {
            consumer_session: self.consumer_session,
            channels_producer_session: Some(session_id),
            trust_policy: self.trust_policy,
        }
    }

    /// The access control that these options give a spawned channel that
    /// carries `session_id`, when the declarations are consistent with it.
    pub open spec fn access_control(self, session_id: Option<SessionId>) -> Result<
        SecureChannelAccessControl,
        TrustOptionsError,
    > {
        match (self.channels_producer_session, session_id) {
            (Some(listener_id), Some(id)) => Ok(
                SecureChannelAccessControl {
                    decryptor_outgoing_access_control: OutgoingAccessControl::Session(
                        SessionOutgoingAccessControl {
                            session_id: id,
                            parent_session_id: Some(listener_id),
                        },
                    ),
                },
            ),
            (None, None) => Ok(
                SecureChannelAccessControl {
                    decryptor_outgoing_access_control: OutgoingAccessControl::AllowAll,
                },
            ),
            _ => Err(TrustOptionsError::SessionsInconsistency),
        }
    }

    /// Options without sessions, with the given trust policy.
    pub fn from_trust_policy(trust_policy: P) -> (r: Self)
        ensures
            r.consumer_session.is_none(),
            r.channels_producer_session.is_none(),
            r.trust_policy == trust_policy,
    {
        SecureChannelListenerTrustOptions {
            consumer_session: None,
            channels_producer_session: None,
            trust_policy,
        }
    }

    /// Marks the listener as a consumer of `session_id` under `session_policy`;
    /// each spawned channel then accepts the producer session of the peer
    /// that opened it.
    pub fn as_consumer(self, session_id: &SessionId, session_policy: SessionPolicy) -> (r: Self)
        ensures
            r == self.with_consumer(*session_id, session_policy),
    {
        SecureChannelListenerTrustOptions {
            consumer_session: Some(CiphertextSession { session_id: *session_id, session_policy }),
            channels_producer_session: self.channels_producer_session,
            trust_policy: self.trust_policy,
        }
    }

    /// Marks the listener as a spawner of `session_id`: every spawned
    /// channel gets a fresh session whose parent is `session_id`.
    pub fn as_spawner(self, session_id: &SessionId) -> (r: Self)
        ensures
            r == self.with_spawner(*session_id),
    {
        SecureChannelListenerTrustOptions {
            consumer_session: self.consumer_session,
            channels_producer_session: Some(*session_id),
            trust_policy: self.trust_policy,
        }
    }

    /// These options with `trust_policy` in place of the current policy.
    pub fn with_trust_policy<Q: TrustPolicy>(self, trust_policy: Q) -> (r:
        SecureChannelListenerTrustOptions<Q>)
        ensures
            r.consumer_session == self.consumer_session,
            r.channels_producer_session == self.channels_producer_session,
            r.trust_policy == trust_policy,
    {
        SecureChannelListenerTrustOptions {
            consumer_session: self.consumer_session,
            channels_producer_session: self.channels_producer_session,
            trust_policy,
        }
    }

    /// Marks the listener's own address `listener_address` as a consumer
    /// under the declared consumer session and policy, if any.
    pub fn setup_listener_session(&self, sessions: &mut Sessions, listener_address: &Address)
        ensures
            final(sessions)@.consumers == consumers_after(
                old(sessions)@.consumers,
                listener_address@,
                declared_binding(self.consumer_session),
            ),
            final(sessions)@.producers == old(sessions)@.producers,
            final(sessions)@.issued_count == old(sessions)@.issued_count,
    {
        register_declared_consumer(sessions, listener_address, self.consumer_session);
    }

    /// Registers the bindings of a channel spawned with `addresses`, whose
    /// peer supplied `producer_session_id`. Returns the fresh session of the
    /// spawned channel when the listener is a spawner.
    pub fn setup_session(
        &self,
        sessions: &mut Sessions,
        addresses: &Addresses,
        producer_session_id: Option<SessionId>,
    ) -> (r: Result<Option<SessionId>, TrustOptionsError>)
        requires
            self.consumer_session.is_some() == producer_session_id.is_some()
                && self.channels_producer_session.is_some() ==> old(sessions)@.can_generate(),
        ensures
            spawned_setup(
                old(sessions)@,
                final(sessions)@,
                self.consumer_session.is_some(),
                self.channels_producer_session,
                addresses.decryptor_remote@,
                addresses.decryptor_internal@,
                producer_session_id,
                r,
            ),
    {
        setup_spawned_session(
            sessions,
            self.consumer_session.is_some(),
            self.channels_producer_session,
            &addresses.decryptor_remote,
            &addresses.decryptor_internal,
            producer_session_id,
        )
    }

    /// The access control of a spawned channel that carries `session_id`:
    /// chained to the spawner session when both are present, open when both
    /// are absent, and an inconsistency otherwise.
    pub fn create_access_control(&self, session_id: Option<SessionId>) -> (r: Result<
        SecureChannelAccessControl,
        TrustOptionsError,
    >)
        ensures
            r == self.access_control(session_id),
    {
        match (&self.channels_producer_session, session_id) {
            (Some(listener_session_id), Some(session_id)) => Ok(
                SecureChannelAccessControl {
                    decryptor_outgoing_access_control: OutgoingAccessControl::Session(
                        SessionOutgoingAccessControl::new(session_id, Some(*listener_session_id)),
                    ),
                },
            ),
            (None, None) => Ok(
                SecureChannelAccessControl {
                    decryptor_outgoing_access_control: OutgoingAccessControl::AllowAll,
                },
            ),
            _ => Err(TrustOptionsError::SessionsInconsistency),
        }
    }
}

/// Declaring a channel's consumer or producer session twice keeps only the
/// later declaration.
pub proof fn lemma_channel_builder_overwrites<P: TrustPolicy>(
    options: SecureChannelTrustOptions<P>,
    first: SessionId,
    second: SessionId,
)
    ensures
        options.with_consumer(first).with_consumer(second) == options.with_consumer(second),
        options.with_producer(first).with_producer(second) == options.with_producer(second),
{
}

/// Declaring a listener's consumer or spawner session twice keeps only the
/// later declaration.
pub proof fn lemma_listener_builder_overwrites<P: TrustPolicy>(
    options: SecureChannelListenerTrustOptions<P>,
    first: SessionId,
    first_policy: SessionPolicy,
    second: SessionId,
    second_policy: SessionPolicy,
)
    ensures
        options.with_consumer(first, first_policy).with_consumer(second, second_policy)
            == options.with_consumer(second, second_policy),
        options.with_spawner(first).with_spawner(second) == options.with_spawner(second),
{
}

/// Channel options that declare no session give an access control that
/// lets every message through, whatever the registry holds.
pub proof fn lemma_channel_open_by_default<P: TrustPolicy>(options: SecureChannelTrustOptions<P>)
    requires
        options.consumer_session.is_none(),
        options.producer_session.is_none(),
    ensures
        options.access_control().decryptor_outgoing_access_control
            == OutgoingAccessControl::AllowAll,
        forall|consumers: Map<Seq<char>, ConsumerBinding>, destination: Seq<char>|
            options.access_control().decryptor_outgoing_access_control.authorizes(
                consumers,
                destination,
            ),
{
}

/// Listener options that declare no session give a spawned channel without
/// a session an access control that lets every message through.
pub proof fn lemma_listener_open_by_default<P: TrustPolicy>(
    options: SecureChannelListenerTrustOptions<P>,
)
    requires
        options.consumer_session.is_none(),
        options.channels_producer_session.is_none(),
    ensures
        options.access_control(None) == Ok::<SecureChannelAccessControl, TrustOptionsError>(
            SecureChannelAccessControl {
                decryptor_outgoing_access_control: OutgoingAccessControl::AllowAll,
            },
        ),
        forall|consumers: Map<Seq<char>, ConsumerBinding>, destination: Seq<char>|
            OutgoingAccessControl::AllowAll.authorizes(consumers, destination),
{
}

/// The session that a spawning setup returns is fresh: it was not issued
/// before (so it differs from the spawner session and from every session
/// returned by earlier setups on the same registry), and it is issued after.
pub proof fn lemma_spawned_session_is_fresh(
    pre: SessionsView,
    post: SessionsView,
    consumer_declared: bool,
    spawner: SessionId,
    remote: Seq<char>,
    internal: Seq<char>,
    producer_session_id: Option<SessionId>,
    spawned: SessionId,
)
    requires
        spawned_setup(
            pre,
            post,
            consumer_declared,
            Some(spawner),
            remote,
            internal,
            producer_session_id,
            Ok(Some(spawned)),
        ),
    ensures
        !pre.issued().contains(spawned),
        post.issued().contains(spawned),
        pre.issued().contains(spawner) ==> spawned != spawner,
        post.producers[internal] == (ProducerBinding {
            session_id: spawned,
            parent_session_id: Some(spawner),
        }),
{
    assert(consumer_declared == producer_session_id.is_some());
    assert(post.issued() == pre.issued().insert(spawned));
}

} // verus!
