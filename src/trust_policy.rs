use vstd::prelude::*;

verus! {

/// What the handshake of a secure channel learned of the peer.
#[derive(Clone, Debug)]
pub struct SecureChannelTrustInfo {
    their_id: String,
}

impl View for SecureChannelTrustInfo {
    type V = Seq<char>;

    closed spec fn view(&self) -> Seq<char> {
        self.their_id@
    }
}

impl SecureChannelTrustInfo {
    /// Trust information about the peer identified by `their_id`.
    pub fn new(their_id: &str) -> (r: Self)
        ensures
            r@ == their_id@,
    {
        SecureChannelTrustInfo { their_id: their_id.to_string() }
    }

    /// Identifier of the peer.
    pub fn their_id(&self) -> (r: &str)
        ensures
            r@ == self@,
    {
        self.their_id.as_str()
    }
}

/// Identity-level admission check, made once when a channel is established,
/// independently of sessions.
pub trait TrustPolicy {
    /// Whether the peer described by `trust_info` is trusted.
    fn check_trust(&self, trust_info: &SecureChannelTrustInfo) -> bool;
}

/// Policy that trusts every peer.
#[derive(Clone, Copy, Debug, PartialEq, Eq, Structural)]
pub struct TrustEveryonePolicy;

impl TrustPolicy for TrustEveryonePolicy {
    fn check_trust(&self, _trust_info: &SecureChannelTrustInfo) -> (r: bool)
        ensures
            r,
    {
        true
    }
}

} // verus!
