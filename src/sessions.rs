use vstd::prelude::*;
use vstd::hash_map::StringHashMap;

verus! {

/// Identifier of a session, unique among the identifiers that one
/// [`Sessions`] registry has issued.
#[derive(Clone, Copy, Debug, PartialEq, Eq, Hash, Structural)]
pub struct SessionId {
    pub value: u64,
}

/// Logical address of an endpoint in the routing fabric.
#[derive(Clone, Debug)]
pub struct Address {
    name: String,
}

impl View for Address {
    type V = Seq<char>;

    closed spec fn view(&self) -> Seq<char> {
        self.name@
    }
}

impl Address {
    /// Address with the given name.
    pub fn new(name: &str) -> (r: Address)
        ensures
            r@ == name@,
    {
        Address { name: name.to_string() }
    }

    /// The name of this address.
    pub fn name(&self) -> (r: &str)
        ensures
            r@ == self@,
    {
        self.name.as_str()
    }
}

/// How a consumer binding is satisfied.
#[derive(Clone, Copy, Debug, PartialEq, Eq, Structural)]
pub enum SessionPolicy {
    /// Only the bound session itself may deliver; any number of producers
    /// may carry it.
    ProducerAllowMultiple,
    /// The bound session is a spawner's: any session whose parent is the
    /// bound one may deliver.
    SpawnerAllowMultipleMessages,
}

/// What an address requires of the messages sent to it.
#[derive(Clone, Copy, Debug, PartialEq, Eq, Structural)]
pub struct ConsumerBinding {
    pub session_id: SessionId,
    pub policy: SessionPolicy,
}

/// Which session (and which spawner session) an address's outgoing traffic
/// carries.
#[derive(Clone, Copy, Debug, PartialEq, Eq, Structural)]
pub struct ProducerBinding {
    pub session_id: SessionId,
    pub parent_session_id: Option<SessionId>,
}

/// Whether `binding` is satisfied by a sender that carries `session_id`,
/// spawned from `parent` if that is `Some`.
pub open spec fn binding_admits(
    binding: ConsumerBinding,
    session_id: SessionId,
    parent: Option<SessionId>,
) -> bool {
    match binding.policy {
        SessionPolicy::ProducerAllowMultiple => session_id == binding.session_id,
        SessionPolicy::SpawnerAllowMultipleMessages => parent == Some(binding.session_id),
    }
}

/// Whether a message to `destination` carrying `session_id` (and `parent`)
/// passes the consumer bindings `consumers`: an address without a binding
/// accepts everything.
pub open spec fn session_allows(
    consumers: Map<Seq<char>, ConsumerBinding>,
    destination: Seq<char>,
    session_id: SessionId,
    parent: Option<SessionId>,
) -> bool {
    !consumers.contains_key(destination) || binding_admits(
        consumers[destination],
        session_id,
        parent,
    )
}

/// Abstract state of a registry.
pub struct SessionsView {
    pub consumers: Map<Seq<char>, ConsumerBinding>,
    pub producers: Map<Seq<char>, ProducerBinding>,
    /// Number of identifiers issued so far.
    pub issued_count: nat,
}

impl SessionsView {
    /// The identifiers issued so far.
    pub open spec fn issued(self) -> Set<SessionId> {
        Set::new(|id: SessionId| (id.value as nat) < self.issued_count)
    }

    /// Whether one more identifier can be issued.
    pub open spec fn can_generate(self) -> bool {
        self.issued_count < u64::MAX
    }
}

/// Registry of session bindings, shared by the endpoints that cooperate
/// through it.
pub struct Sessions {
    consumers: StringHashMap<ConsumerBinding>,
    producers: StringHashMap<ProducerBinding>,
    next_id: u64,
}

impl View for Sessions {
    type V = SessionsView;

    closed spec fn view(&self) -> SessionsView {
        SessionsView {
            consumers: self.consumers@,
            producers: self.producers@,
            issued_count: self.next_id as nat,
        }
    }
}

impl Sessions {
    /// Empty registry that has issued no identifier.
    pub fn new() -> (r: Sessions)
        ensures
            r@.consumers == Map::<Seq<char>, ConsumerBinding>::empty(),
            r@.producers == Map::<Seq<char>, ProducerBinding>::empty(),
            r@.issued_count == 0,
    {
        Sessions { consumers: StringHashMap::new(), producers: StringHashMap::new(), next_id: 0 }
    }

    /// Issues an identifier that this registry has never issued before.
    pub fn generate_session_id(&mut self) -> (r: SessionId)
        requires
            old(self)@.can_generate(),
        ensures
            issues(old(self)@, r, final(self)@),
            r.value == old(self)@.issued_count,
            final(self)@.consumers == old(self)@.consumers,
            final(self)@.producers == old(self)@.producers,
    {
        let r = SessionId { value: self.next_id };
        self.next_id = self.next_id + 1;
        assert(self@.issued() =~= old(self)@.issued().insert(r));
        r
    }

    /// Requires of every message to `address` that it satisfy `policy`
    /// with respect to `session_id`, replacing any earlier requirement.
    pub fn add_consumer(&mut self, address: &Address, session_id: &SessionId, policy: SessionPolicy)
        ensures
            final(self)@.consumers == old(self)@.consumers.insert(
                address@,
                ConsumerBinding { session_id: *session_id, policy },
            ),
            final(self)@.producers == old(self)@.producers,
            final(self)@.issued_count == old(self)@.issued_count,
    {
        let binding = ConsumerBinding { session_id: *session_id, policy };
        self.consumers.insert(address.name.clone(), binding);
    }

    /// Records that the traffic leaving `address` carries `session_id`,
    /// spawned from `parent_session_id` if given, replacing any earlier
    /// record.
    pub fn add_producer(
        &mut self,
        address: &Address,
        session_id: &SessionId,
        parent_session_id: Option<&SessionId>,
    )
        ensures
            final(self)@.producers == old(self)@.producers.insert(
                address@,
                ProducerBinding {
                    session_id: *session_id,
                    parent_session_id: match parent_session_id {
                        Some(p) => Some(*p),
                        None => None,
                    },
                },
            ),
            final(self)@.consumers == old(self)@.consumers,
            final(self)@.issued_count == old(self)@.issued_count,
    {
        let parent = match parent_session_id {
            Some(p) => Some(*p),
            None => None,
        };
        let binding = ProducerBinding { session_id: *session_id, parent_session_id: parent };
        self.producers.insert(address.name.clone(), binding);
    }

    /// Drops the consumer binding of `address`, if any, when the endpoint
    /// there closes.
    pub fn remove_consumer(&mut self, address: &Address)
        ensures
            final(self)@.consumers == old(self)@.consumers.remove(address@),
            final(self)@.producers == old(self)@.producers,
            final(self)@.issued_count == old(self)@.issued_count,
    {
        self.consumers.remove(address.name.as_str());
    }

    /// Drops the producer binding of `address`, if any, when the endpoint
    /// there closes.
    pub fn remove_producer(&mut self, address: &Address)
        ensures
            final(self)@.producers == old(self)@.producers.remove(address@),
            final(self)@.consumers == old(self)@.consumers,
            final(self)@.issued_count == old(self)@.issued_count,
    {
        self.producers.remove(address.name.as_str());
    }

    /// The consumer binding of `address`, if any.
    pub fn get_consumer(&self, address: &Address) -> (r: Option<ConsumerBinding>)
        ensures
            r == (if self@.consumers.contains_key(address@) {
                Some(self@.consumers[address@])
            } else {
                None
            }),
    {
        match self.consumers.get(address.name.as_str()) {
            Some(b) => Some(*b),
            None => None,
        }
    }

    /// The producer binding of `address`, if any.
    pub fn get_producer(&self, address: &Address) -> (r: Option<ProducerBinding>)
        ensures
            r == (if self@.producers.contains_key(address@) {
                Some(self@.producers[address@])
            } else {
                None
            }),
    {
        match self.producers.get(address.name.as_str()) {
            Some(b) => Some(*b),
            None => None,
        }
    }

    /// Whether a message to `destination` carrying `session_id`, spawned
    /// from `parent` if given, may be delivered.
    pub fn is_allowed(
        &self,
        destination: &Address,
        session_id: &SessionId,
        parent: Option<&SessionId>,
    ) -> (r: bool)
        ensures
            r == session_allows(
                self@.consumers,
                destination@,
                *session_id,
                match parent {
                    Some(p) => Some(*p),
                    None => None,
                },
            ),
    {
        match self.get_consumer(destination) {
            None => true,
            Some(binding) => match binding.policy {
                SessionPolicy::ProducerAllowMultiple => *session_id == binding.session_id,
                SessionPolicy::SpawnerAllowMultipleMessages => match parent {
                    Some(p) => *p == binding.session_id,
                    None => false,
                },
            },
        }
    }
}

impl Default for Sessions {
    fn default() -> (r: Sessions)
        ensures
            r@.consumers == Map::<Seq<char>, ConsumerBinding>::empty(),
            r@.producers == Map::<Seq<char>, ProducerBinding>::empty(),
            r@.issued_count == 0,
    {
        Sessions::new()
    }
}

/// Whether going from registry state `pre` to `post` issued `id`, as
/// `generate_session_id` does.
pub open spec fn issues(pre: SessionsView, id: SessionId, post: SessionsView) -> bool {
    &&& !pre.issued().contains(id)
    &&& post.issued() == pre.issued().insert(id)
    &&& post.issued_count == pre.issued_count + 1
}

/// Two identifiers issued by one registry are distinct: `a` is issued on
/// the way from `s0` to `s1`, `b` later on the way from `s2` to `s3`, and
/// whatever happened between `s1` and `s2` (further identifiers, bindings)
/// never shrinks what has been issued.
pub proof fn lemma_issued_ids_distinct(
    s0: SessionsView,
    a: SessionId,
    s1: SessionsView,
    s2: SessionsView,
    b: SessionId,
    s3: SessionsView,
)
    requires
        issues(s0, a, s1),
        s1.issued_count <= s2.issued_count,
        issues(s2, b, s3),
    ensures
        a != b,
{
    assert(s1.issued().contains(a));
    assert(s2.issued().contains(a));
}

/// A message to an address bound under `ProducerAllowMultiple` to session
/// `s` is denied when it carries any other session, whatever its parent.
pub proof fn lemma_producer_policy_denies_other_session(
    consumers: Map<Seq<char>, ConsumerBinding>,
    destination: Seq<char>,
    s: SessionId,
    other: SessionId,
    parent: Option<SessionId>,
)
    requires
        consumers.contains_key(destination),
        consumers[destination] == (ConsumerBinding {
            session_id: s,
            policy: SessionPolicy::ProducerAllowMultiple,
        }),
        other != s,
    ensures
        !session_allows(consumers, destination, other, parent),
        session_allows(consumers, destination, s, parent),
{
}

/// A message to an address bound under `SpawnerAllowMultipleMessages` to
/// spawner session `p` is allowed exactly when the session it carries was
/// spawned from `p`, whatever that session is.
pub proof fn lemma_spawner_policy_admits_descendants(
    consumers: Map<Seq<char>, ConsumerBinding>,
    destination: Seq<char>,
    p: SessionId,
    session_id: SessionId,
    parent: Option<SessionId>,
)
    requires
        consumers.contains_key(destination),
        consumers[destination] == (ConsumerBinding {
            session_id: p,
            policy: SessionPolicy::SpawnerAllowMultipleMessages,
        }),
    ensures
        session_allows(consumers, destination, session_id, Some(p)),
        session_allows(consumers, destination, session_id, parent) <==> parent == Some(p),
{
}

} // verus!
