use session_trust::access_control::{OutgoingAccessControl, SessionOutgoingAccessControl};
use session_trust::sessions::{Address, ConsumerBinding, ProducerBinding, SessionPolicy, Sessions};
use session_trust::trust_options::{
    Addresses, CiphertextSession, SecureChannelAccessControl, SecureChannelListenerTrustOptions,
    SecureChannelTrustOptions, TrustOptionsError,
};
use session_trust::trust_policy::{SecureChannelTrustInfo, TrustEveryonePolicy, TrustPolicy};

fn addresses() -> Addresses {
    Addresses::new(Address::new("remote"), Address::new("internal"))
}

struct TrustNobody;

impl TrustPolicy for TrustNobody {
    fn check_trust(&self, _trust_info: &SecureChannelTrustInfo) -> bool {
        false
    }
}

#[test]
fn trust_everyone_trusts() {
    let info = SecureChannelTrustInfo::new("peer");
    assert_eq!(info.their_id(), "peer");
    assert!(TrustEveryonePolicy.check_trust(&info));
}

#[test]
fn channel_builder_overwrites() {
    let mut sessions = Sessions::new();
    let s1 = sessions.generate_session_id();
    let s2 = sessions.generate_session_id();
    let options = SecureChannelTrustOptions::new()
        .as_consumer(&s1)
        .as_producer(&s1)
        .as_consumer(&s2)
        .as_producer(&s2);
    assert_eq!(options.consumer_session, Some(s2));
    assert_eq!(options.producer_session, Some(s2));
}

#[test]
fn channel_with_trust_policy_keeps_sessions() {
    let mut sessions = Sessions::new();
    let s = sessions.generate_session_id();
    let options = SecureChannelTrustOptions::default().as_producer(&s).with_trust_policy(TrustNobody);
    assert_eq!(options.producer_session, Some(s));
    assert_eq!(options.consumer_session, None);
    assert!(!options.trust_policy.check_trust(&SecureChannelTrustInfo::new("peer")));
    let from_policy = SecureChannelTrustOptions::from_trust_policy(TrustNobody);
    assert_eq!(from_policy.consumer_session, None);
    assert_eq!(from_policy.producer_session, None);
}

#[test]
fn channel_open_by_default() {
    let mut sessions = Sessions::new();
    let s = sessions.generate_session_id();
    let remote = Address::new("remote");
    sessions.add_consumer(&remote, &s, SessionPolicy::ProducerAllowMultiple);
    let options = SecureChannelTrustOptions::new();
    options.setup_session(&mut sessions, &addresses());
    let ac = options.create_access_control();
    assert_eq!(ac.decryptor_outgoing_access_control, OutgoingAccessControl::AllowAll);
    assert!(ac.decryptor_outgoing_access_control.is_authorized(&sessions, &remote));
    assert_eq!(sessions.get_producer(&Address::new("internal")), None);
}

#[test]
fn channel_setup_registers_both_roles() {
    let mut sessions = Sessions::new();
    let c = sessions.generate_session_id();
    let p = sessions.generate_session_id();
    let options = SecureChannelTrustOptions::new().as_consumer(&c).as_producer(&p);
    options.setup_session(&mut sessions, &addresses());
    assert_eq!(
        sessions.get_consumer(&Address::new("remote")),
        Some(ConsumerBinding { session_id: c, policy: SessionPolicy::ProducerAllowMultiple })
    );
    assert_eq!(
        sessions.get_producer(&Address::new("internal")),
        Some(ProducerBinding { session_id: p, parent_session_id: None })
    );
    assert_eq!(
        options.create_access_control(),
        SecureChannelAccessControl {
            decryptor_outgoing_access_control: OutgoingAccessControl::Session(
                SessionOutgoingAccessControl::new(p, None)
            )
        }
    );
}

#[test]
fn listener_builder_overwrites() {
    let mut sessions = Sessions::new();
    let s1 = sessions.generate_session_id();
    let s2 = sessions.generate_session_id();
    let options = SecureChannelListenerTrustOptions::new()
        .as_consumer(&s1, SessionPolicy::ProducerAllowMultiple)
        .as_spawner(&s1)
        .as_consumer(&s2, SessionPolicy::SpawnerAllowMultipleMessages)
        .as_spawner(&s2)
        .with_trust_policy(TrustNobody);
    assert_eq!(
        options.consumer_session,
        Some(CiphertextSession {
            session_id: s2,
            session_policy: SessionPolicy::SpawnerAllowMultipleMessages
        })
    );
    assert_eq!(options.channels_producer_session, Some(s2));
    let default = SecureChannelListenerTrustOptions::default();
    assert_eq!(default.consumer_session, None);
    let from_policy = SecureChannelListenerTrustOptions::from_trust_policy(TrustNobody);
    assert_eq!(from_policy.channels_producer_session, None);
}

#[test]
fn listener_consumer_without_producer_is_inconsistent() {
    let mut sessions = Sessions::new();
    let c = sessions.generate_session_id();
    let spawner = sessions.generate_session_id();
    let options = SecureChannelListenerTrustOptions::new()
        .as_consumer(&c, SessionPolicy::SpawnerAllowMultipleMessages)
        .as_spawner(&spawner);
    let r = options.setup_session(&mut sessions, &addresses(), None);
    assert_eq!(r, Err(TrustOptionsError::SessionsInconsistency));
    assert_eq!(sessions.get_consumer(&Address::new("remote")), None);
    assert_eq!(sessions.get_producer(&Address::new("internal")), None);
    // no identifier was spent either
    let next = sessions.generate_session_id();
    assert_ne!(next, c);
    assert_ne!(next, spawner);
}

#[test]
fn listener_producer_without_consumer_is_inconsistent() {
    let mut sessions = Sessions::new();
    let peer = sessions.generate_session_id();
    let spawner = sessions.generate_session_id();
    let options = SecureChannelListenerTrustOptions::new().as_spawner(&spawner);
    let r = options.setup_session(&mut sessions, &addresses(), Some(peer));
    assert_eq!(r, Err(TrustOptionsError::SessionsInconsistency));
    assert_eq!(sessions.get_consumer(&Address::new("remote")), None);
    assert_eq!(sessions.get_producer(&Address::new("internal")), None);
}

#[test]
fn listener_without_sessions_is_open() {
    let mut sessions = Sessions::new();
    let options = SecureChannelListenerTrustOptions::new();
    assert_eq!(options.setup_session(&mut sessions, &addresses(), None), Ok(None));
    assert_eq!(
        options.create_access_control(None),
        Ok(SecureChannelAccessControl {
            decryptor_outgoing_access_control: OutgoingAccessControl::AllowAll
        })
    );
}

#[test]
fn listener_spawns_fresh_chained_session() {
    let mut sessions = Sessions::new();
    let c = sessions.generate_session_id();
    let spawner = sessions.generate_session_id();
    let peer = sessions.generate_session_id();
    let options = SecureChannelListenerTrustOptions::new()
        .as_consumer(&c, SessionPolicy::SpawnerAllowMultipleMessages)
        .as_spawner(&spawner);
    let fresh = options
        .setup_session(&mut sessions, &addresses(), Some(peer))
        .unwrap()
        .unwrap();
    assert_ne!(fresh, spawner);
    assert_ne!(fresh, c);
    assert_ne!(fresh, peer);
    assert_eq!(
        sessions.get_consumer(&Address::new("remote")),
        Some(ConsumerBinding { session_id: peer, policy: SessionPolicy::ProducerAllowMultiple })
    );
    assert_eq!(
        sessions.get_producer(&Address::new("internal")),
        Some(ProducerBinding { session_id: fresh, parent_session_id: Some(spawner) })
    );
    let ac = options.create_access_control(Some(fresh)).unwrap();
    assert_eq!(
        ac.decryptor_outgoing_access_control,
        OutgoingAccessControl::Session(SessionOutgoingAccessControl::new(fresh, Some(spawner)))
    );
}

#[test]
fn listener_access_control_mismatch_is_inconsistent() {
    let mut sessions = Sessions::new();
    let spawner = sessions.generate_session_id();
    let fresh = sessions.generate_session_id();
    let spawning = SecureChannelListenerTrustOptions::new().as_spawner(&spawner);
    assert_eq!(
        spawning.create_access_control(None),
        Err(TrustOptionsError::SessionsInconsistency)
    );
    let plain = SecureChannelListenerTrustOptions::new();
    assert_eq!(
        plain.create_access_control(Some(fresh)),
        Err(TrustOptionsError::SessionsInconsistency)
    );
}

#[test]
fn default_options_trust_everyone() {
    let info = SecureChannelTrustInfo::new("anyone");
    assert!(SecureChannelTrustOptions::new().trust_policy.check_trust(&info));
    assert!(SecureChannelListenerTrustOptions::new().trust_policy.check_trust(&info));
}

#[test]
fn listener_registers_its_own_consumer_binding() {
    let mut sessions = Sessions::new();
    let s = sessions.generate_session_id();
    let own = Address::new("listener");
    let options = SecureChannelListenerTrustOptions::new()
        .as_consumer(&s, SessionPolicy::SpawnerAllowMultipleMessages);
    options.setup_listener_session(&mut sessions, &own);
    assert_eq!(
        sessions.get_consumer(&own),
        Some(ConsumerBinding { session_id: s, policy: SessionPolicy::SpawnerAllowMultipleMessages })
    );
    let plain = SecureChannelListenerTrustOptions::new();
    let other = Address::new("other");
    plain.setup_listener_session(&mut sessions, &other);
    assert_eq!(sessions.get_consumer(&other), None);
}
