use playground::origin::Origin;
use playground::pallet::Error;
use playground::pallet::Event;
use playground::pallet::Pallet;
use playground::price::OperationKind;
use playground::price::PathStep;
use playground::price::PricePath;
use playground::price::ProviderPairOperation;

#[test]
fn hello_signed_emits_hello() {
    let mut pallet = Pallet::new();
    let r = pallet.hello(&Origin::Signed(42), 100);
    assert_eq!(r, Ok(()));
    assert_eq!(pallet.events, vec![Event::Hello(100, 42)]);
}

#[test]
fn hello_root_emits_hello_root() {
    let mut pallet = Pallet::new();
    let r = pallet.hello(&Origin::Root, 7);
    assert_eq!(r, Ok(()));
    assert_eq!(pallet.events, vec![Event::HelloRoot(7)]);
}

#[test]
fn hello_anonymous_rejected_without_side_effect() {
    let mut pallet = Pallet::new();
    let r = pallet.hello(&Origin::Anonymous, 7);
    assert_eq!(r, Err(Error::BadOrigin));
    assert!(pallet.events.is_empty());
}

#[test]
fn submit_monitored_pairs_forwards_for_signed() {
    let mut pallet = Pallet::new();
    let ops = vec![ProviderPairOperation {
        source: b"USD".to_vec(),
        target: b"EUR".to_vec(),
        provider: 1,
        operation: OperationKind::Add,
    }];
    let r = pallet.submit_monitored_pairs(&Origin::Signed(1), ops.clone());
    assert_eq!(r, Ok(ops));
    assert!(pallet.events.is_empty());
}

#[test]
fn submit_monitored_pairs_rejects_root() {
    let mut pallet = Pallet::new();
    let r = pallet.submit_monitored_pairs(&Origin::Root, vec![]);
    assert_eq!(r, Err(Error::BadOrigin));
}

#[test]
fn submit_monitored_pairs_rejects_anonymous() {
    let mut pallet = Pallet::new();
    let r = pallet.submit_monitored_pairs(&Origin::Anonymous, vec![]);
    assert_eq!(r, Err(Error::BadOrigin));
    assert!(pallet.events.is_empty());
}

#[test]
fn lookup_with_absent_path_notifies_and_succeeds() {
    let mut pallet = Pallet::new();
    let r = pallet.lookup_price(&Origin::Signed(3), b"USD".to_vec(), b"EUR".to_vec(), None);
    assert_eq!(r, Ok(()));
    assert_eq!(
        pallet.events,
        vec![Event::PricePathLookup(b"USD".to_vec(), b"EUR".to_vec(), None)]
    );
}

#[test]
fn lookup_carries_found_path() {
    let mut pallet = Pallet::new();
    let path = PricePath {
        total_cost: 11,
        steps: vec![PathStep {
            source: b"USD".to_vec(),
            target: b"EUR".to_vec(),
            provider: 9,
            cost: 11,
        }],
    };
    let r = pallet.lookup_price(
        &Origin::Signed(3),
        b"USD".to_vec(),
        b"EUR".to_vec(),
        Some(path.clone()),
    );
    assert_eq!(r, Ok(()));
    assert_eq!(
        pallet.events,
        vec![Event::PricePathLookup(b"USD".to_vec(), b"EUR".to_vec(), Some(path))]
    );
}

#[test]
fn lookup_accepts_administrative_trigger() {
    // The scheduler's own trigger presents as the administrative identity.
    let mut pallet = Pallet::new();
    let r = pallet.lookup_price(&Origin::Root, b"USD".to_vec(), b"EUR".to_vec(), None);
    assert_eq!(r, Ok(()));
    assert_eq!(pallet.events.len(), 1);
}

#[test]
fn lookup_anonymous_rejected_without_side_effect() {
    let mut pallet = Pallet::new();
    let r = pallet.lookup_price(&Origin::Anonymous, b"USD".to_vec(), b"EUR".to_vec(), None);
    assert_eq!(r, Err(Error::BadOrigin));
    assert!(pallet.events.is_empty());
}

#[test]
fn post_update_ack_signed_emits_ack() {
    let mut pallet = Pallet::new();
    let r = pallet.post_update_ack(&Origin::Signed(5));
    assert_eq!(r, Ok(()));
    assert_eq!(pallet.events, vec![Event::PostUpdateAck]);
}

#[test]
fn post_update_ack_anonymous_rejected() {
    let mut pallet = Pallet::new();
    let r = pallet.post_update_ack(&Origin::Anonymous);
    assert_eq!(r, Err(Error::BadOrigin));
    assert!(pallet.events.is_empty());
}
