use rendezvous::registry::{Registry, Role};

#[test]
fn key_names() {
    assert_eq!(Registry::passphrase_key("swordfish"), "passphrase:swordfish");
    assert_eq!(Registry::caller_channel_key("swordfish"), "channel:caller:swordfish");
    assert_eq!(Registry::callee_channel_key("swordfish"), "channel:callee:swordfish");
    assert_eq!(Registry::passphrase_key(""), "passphrase:");
    assert_eq!(Registry::caller_channel_key("a:b c"), "channel:caller:a:b c");
    assert_eq!(Registry::callee_channel_key("\u{1f600}"), "channel:callee:\u{1f600}");
}

#[test]
fn caller_sends_on_its_own_channel() {
    let registry = Registry::new("swordfish".to_string(), Role::Caller);
    assert_eq!(registry.claim_key(), "passphrase:swordfish");
    assert_eq!(registry.send_key(), "channel:caller:swordfish");
    assert_eq!(registry.receive_key(), "channel:callee:swordfish");
}

#[test]
fn callee_is_the_mirror() {
    let caller = Registry::new("swordfish".to_string(), Role::Caller);
    let callee = Registry::new("swordfish".to_string(), Role::Callee);
    assert_eq!(callee.claim_key(), caller.claim_key());
    assert_eq!(callee.send_key(), caller.receive_key());
    assert_eq!(callee.receive_key(), caller.send_key());
    assert_ne!(callee.send_key(), callee.receive_key());
}

#[test]
fn keys_of_one_session_differ() {
    for passphrase in ["", "p", "caller:", "channel:caller:x", "passphrase:"] {
        for role in [Role::Caller, Role::Callee] {
            let registry = Registry::new(passphrase.to_string(), role);
            assert_ne!(registry.claim_key(), registry.send_key());
            assert_ne!(registry.claim_key(), registry.receive_key());
            assert_ne!(registry.send_key(), registry.receive_key());
        }
    }
}

#[test]
fn keys_of_different_passphrases_differ() {
    let one = Registry::new("one".to_string(), Role::Caller);
    let other = Registry::new("other".to_string(), Role::Callee);
    let keys_of = |r: &Registry| {
        vec![r.claim_key().to_string(), r.send_key().to_string(), r.receive_key().to_string()]
    };
    for key in keys_of(&one) {
        assert!(!keys_of(&other).contains(&key));
    }
}

#[test]
fn clone_keeps_the_keys() {
    let registry = Registry::new("swordfish".to_string(), Role::Callee);
    assert_eq!(registry.clone(), registry);
}

#[test]
fn role_markers() {
    assert_eq!(Role::Caller.marker(), "1");
    assert_eq!(Role::Callee.marker(), "0");
    assert_eq!(Role::from_marker("1"), Some(Role::Caller));
    assert_eq!(Role::from_marker("0"), Some(Role::Callee));
    assert_eq!(Role::from_marker(""), None);
    assert_eq!(Role::from_marker("2"), None);
    assert_eq!(Role::from_marker("10"), None);
    assert_eq!(Role::from_marker(" 1"), None);
}
