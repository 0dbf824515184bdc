use vstd::prelude::*;
use crate::sessions::{session_allows, Address, SessionId, Sessions};

verus! {

/// Outgoing access control of an endpoint that carries a session: it holds
/// the endpoint's own session and, for a spawned endpoint, its spawner's.
#[derive(Clone, Copy, Debug, PartialEq, Eq, Structural)]
pub struct SessionOutgoingAccessControl {
    pub session_id: SessionId,
    pub parent_session_id: Option<SessionId>,
}

impl SessionOutgoingAccessControl {
    /// Access control for an endpoint carrying `session_id`, spawned from
    /// `parent_session_id` if given.
    pub fn new(session_id: SessionId, parent_session_id: Option<SessionId>) -> (r: Self)
        ensures
            r.session_id == session_id,
            r.parent_session_id == parent_session_id,
    {
        SessionOutgoingAccessControl { session_id, parent_session_id }
    }

    /// Whether a message to `destination` passes the consumer binding that
    /// `sessions` holds for it.
    pub fn is_authorized(&self, sessions: &Sessions, destination: &Address) -> (r: bool)
        ensures
            r == session_allows(
                sessions@.consumers,
                destination@,
                self.session_id,
                self.parent_session_id,
            ),
    {
        match &self.parent_session_id {
            Some(p) => sessions.is_allowed(destination, &self.session_id, Some(p)),
            None => sessions.is_allowed(destination, &self.session_id, None),
        }
    }
}

/// Decision object installed on an endpoint's outgoing path.
#[derive(Clone, Copy, Debug, PartialEq, Eq, Structural)]
pub enum OutgoingAccessControl {
    /// Lets every message through.
    AllowAll,
    /// Lets through what the registry's consumer bindings accept.
    Session(SessionOutgoingAccessControl),
}

impl OutgoingAccessControl {
    /// Whether this access control lets a message to `destination` through,
    /// given the consumer bindings `consumers`.
    pub open spec fn authorizes(
        self,
        consumers: Map<Seq<char>, crate::sessions::ConsumerBinding>,
        destination: Seq<char>,
    ) -> bool {
        match self {
            OutgoingAccessControl::AllowAll => true,
            OutgoingAccessControl::Session(ac) => session_allows(
                consumers,
                destination,
                ac.session_id,
                ac.parent_session_id,
            ),
        }
    }

    /// Whether a message to `destination` may leave.
    pub fn is_authorized(&self, sessions: &Sessions, destination: &Address) -> (r: bool)
        ensures
            r == self.authorizes(sessions@.consumers, destination@),
    {
        match self {
            OutgoingAccessControl::AllowAll => true,
            OutgoingAccessControl::Session(ac) => ac.is_authorized(sessions, destination),
        }
    }
}

} // verus!
