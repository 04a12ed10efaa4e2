use romer::registry::{PaymentHash, PendingPayments};

fn hash(tag: u8) -> PaymentHash {
    let mut bytes = [0u8; 32];
    bytes[31] = tag;
    PaymentHash(bytes)
}

#[test]
fn a_new_registry_is_empty() {
    let pending: PendingPayments<u32> = PendingPayments::new();
    assert_eq!(pending.len(), 0);
    assert!(pending.is_empty());
    assert!(!pending.contains(&hash(1)));
}

#[test]
fn a_registered_hash_is_pending() {
    let mut pending = PendingPayments::new();
    assert_eq!(pending.register(hash(1), "first"), None);
    assert!(pending.contains(&hash(1)));
    assert!(!pending.contains(&hash(2)));
    assert_eq!(pending.len(), 1);
    assert!(!pending.is_empty());
}

#[test]
fn take_hands_out_the_registered_endpoint() {
    let mut pending = PendingPayments::new();
    pending.register(hash(1), 11);
    pending.register(hash(2), 22);
    pending.register(hash(3), 33);
    assert_eq!(pending.take(&hash(2)), Some(22));
    assert_eq!(pending.len(), 2);
    assert_eq!(pending.take(&hash(1)), Some(11));
    assert_eq!(pending.take(&hash(3)), Some(33));
    assert!(pending.is_empty());
}

#[test]
fn taking_twice_yields_the_entry_once() {
    let mut pending = PendingPayments::new();
    pending.register(hash(7), 'x');
    assert_eq!(pending.take(&hash(7)), Some('x'));
    assert_eq!(pending.take(&hash(7)), None);
    assert_eq!(pending.len(), 0);
}

#[test]
fn taking_an_unknown_hash_changes_nothing() {
    let mut pending = PendingPayments::new();
    pending.register(hash(1), 1);
    assert_eq!(pending.take(&hash(2)), None);
    assert_eq!(pending.len(), 1);
    assert!(pending.contains(&hash(1)));
}

#[test]
fn the_last_registration_wins() {
    let mut pending = PendingPayments::new();
    assert_eq!(pending.register(hash(1), "first"), None);
    assert_eq!(pending.register(hash(1), "second"), Some("first"));
    assert_eq!(pending.len(), 1);
    assert_eq!(pending.take(&hash(1)), Some("second"));
    assert_eq!(pending.take(&hash(1)), None);
}

#[test]
fn a_hash_can_be_registered_again_after_a_take() {
    let mut pending = PendingPayments::new();
    pending.register(hash(1), 1);
    assert_eq!(pending.take(&hash(1)), Some(1));
    assert_eq!(pending.register(hash(1), 2), None);
    assert_eq!(pending.take(&hash(1)), Some(2));
}

#[test]
fn hashes_differ_by_any_byte() {
    let mut a = [0u8; 32];
    let b = [0u8; 32];
    assert!(PaymentHash(a).same_as(&PaymentHash(b)));
    a[0] = 1;
    assert!(!PaymentHash(a).same_as(&PaymentHash(b)));
    a[0] = 0;
    a[31] = 1;
    assert!(!PaymentHash(a).same_as(&PaymentHash(b)));
    let mut pending = PendingPayments::new();
    pending.register(PaymentHash(a), ());
    assert!(!pending.contains(&PaymentHash(b)));
}
