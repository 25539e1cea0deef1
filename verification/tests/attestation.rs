use machine_attest::attest::{
    attest, decide, preflight, AttestationMode, AttestationResult, RegistryEvent, RegistryLink,
};
use machine_attest::identity::MachineIdentity;
use machine_attest::registry::Registry;

fn identity(cpu: &str, mac: &str) -> MachineIdentity {
    MachineIdentity {
        cpu_brand: cpu.to_string(),
        mac_address: mac.to_string(),
    }
}

fn sentinel_identity() -> MachineIdentity {
    identity("Unknown CPU", "Unknown MAC")
}

#[test]
fn decide_maps_every_event() {
    assert_eq!(decide(RegistryEvent::RegisterDone), AttestationResult::Authorized);
    assert_eq!(decide(RegistryEvent::Found), AttestationResult::Authorized);
    assert_eq!(decide(RegistryEvent::NotFound), AttestationResult::Denied);
    assert_eq!(
        decide(RegistryEvent::TransportFailed("no route to registry".to_string())),
        AttestationResult::Indeterminate("no route to registry".to_string())
    );
    assert_eq!(
        decide(RegistryEvent::QueryFailed("malformed statement".to_string())),
        AttestationResult::Indeterminate("malformed statement".to_string())
    );
}

#[test]
fn preflight_blocks_only_the_sentinel_pair() {
    assert!(matches!(
        preflight(&sentinel_identity()),
        Some(AttestationResult::Indeterminate(_))
    ));
    assert!(preflight(&identity("Some CPU", "aa:bb:cc:dd:ee:ff")).is_none());
    assert!(preflight(&identity("Unknown CPU", "aa:bb:cc:dd:ee:ff")).is_none());
    assert!(preflight(&identity("Some CPU", "Unknown MAC")).is_none());
}

#[test]
fn registry_registration_is_idempotent() {
    let mut reg = Registry::new();
    let id = identity("Intel(R) Core(TM) i7", "aa:bb:cc:dd:ee:ff");
    assert!(!reg.contains(&id));
    reg.register(&id);
    assert!(reg.contains(&id));
    assert_eq!(reg.record_count(), 1);
    reg.register(&id);
    assert_eq!(reg.record_count(), 1);
    assert!(reg.contains(&id));
}

#[test]
fn registry_distinguishes_pairs() {
    let mut reg = Registry::new();
    let a = identity("Intel(R) Core(TM) i7", "aa:bb:cc:dd:ee:ff");
    let b = identity("Intel(R) Core(TM) i7", "11:22:33:44:55:66");
    reg.register(&a);
    assert!(reg.contains(&a));
    assert!(!reg.contains(&b));
    reg.register(&b);
    assert_eq!(reg.record_count(), 2);
}

#[test]
fn registered_then_queried_is_authorized() {
    let id = identity("Intel(R) Core(TM) i7", "aa:bb:cc:dd:ee:ff");
    let (link, r1) = attest(&id, AttestationMode::Register, RegistryLink::Up(Registry::new()));
    assert_eq!(r1, AttestationResult::Authorized);
    let (link, r2) = attest(&id, AttestationMode::Query, link);
    assert_eq!(r2, AttestationResult::Authorized);

    let other = identity("Intel(R) Core(TM) i7", "11:22:33:44:55:66");
    let (_link, r3) = attest(&other, AttestationMode::Query, link);
    assert_eq!(r3, AttestationResult::Denied);
}

#[test]
fn never_registered_is_denied_when_reachable() {
    let id = identity("AMD Ryzen 9", "01:02:03:04:05:06");
    let (_link, r) = attest(&id, AttestationMode::Query, RegistryLink::Up(Registry::new()));
    assert_eq!(r, AttestationResult::Denied);
}

#[test]
fn unreachable_registry_is_indeterminate_for_both_modes() {
    let id = identity("AMD Ryzen 9", "01:02:03:04:05:06");
    let down = RegistryLink::Down("connection refused".to_string());
    let (down, r1) = attest(&id, AttestationMode::Register, down);
    assert_eq!(
        r1,
        AttestationResult::Indeterminate("connection refused".to_string())
    );
    let (_down, r2) = attest(&id, AttestationMode::Query, down);
    assert_eq!(
        r2,
        AttestationResult::Indeterminate("connection refused".to_string())
    );
}

#[test]
fn registering_twice_through_attest_keeps_one_record() {
    let id = identity("Intel(R) Core(TM) i7", "aa:bb:cc:dd:ee:ff");
    let (link, _) = attest(&id, AttestationMode::Register, RegistryLink::Up(Registry::new()));
    let (link, r) = attest(&id, AttestationMode::Register, link);
    assert_eq!(r, AttestationResult::Authorized);
    match link {
        RegistryLink::Up(reg) => assert_eq!(reg.record_count(), 1),
        RegistryLink::Down(_) => unreachable!(),
    }
}

#[test]
fn sentinel_pair_never_authorized_even_if_registered() {
    let id = sentinel_identity();
    let (link, r1) = attest(&id, AttestationMode::Register, RegistryLink::Up(Registry::new()));
    assert!(matches!(r1, AttestationResult::Indeterminate(_)));
    let (_link, r2) = attest(&id, AttestationMode::Query, link);
    assert!(matches!(r2, AttestationResult::Indeterminate(_)));
}
