use playground::name::derive_schedule_name;
use playground::origin::Origin;
use playground::pallet::Error;
use playground::pallet::Pallet;
use playground::pallet::SCHEDULE_PRIORITY;
use playground::schedule::Schedule;
use playground::scheduler::Call;
use playground::scheduler::SchedulerRegistry;

fn valid_schedule() -> Schedule {
    Schedule { start: 50, period: 10, occurrences: 3 }
}

fn other_schedule() -> Schedule {
    Schedule { start: 99, period: 1, occurrences: 1 }
}

fn malformed_schedule() -> Schedule {
    Schedule { start: 50, period: 0, occurrences: 2 }
}

#[test]
fn schedule_monitoring_registers_the_lookup() {
    let mut pallet = Pallet::new();
    let mut registry = SchedulerRegistry::new();
    let r = pallet.schedule_monitoring(
        &Origin::Signed(42),
        b"USD".to_vec(),
        b"EUR".to_vec(),
        valid_schedule(),
        &mut registry,
    );
    assert_eq!(r, Ok(()));
    assert_eq!(registry.count(), 1);
    assert!(pallet.events.is_empty());

    let name = derive_schedule_name(&b"USD".to_vec(), &b"EUR".to_vec());
    let entry = registry.get(&name).expect("the derived name must be registered");
    assert_eq!(entry.schedule, valid_schedule());
    assert_eq!(entry.priority, SCHEDULE_PRIORITY);
    assert_eq!(entry.priority, 200);
    // The callback runs under the administrative identity, not the caller's.
    assert_eq!(entry.origin, Origin::Root);
    assert_eq!(
        entry.call,
        Call::LookupPrice { source: b"USD".to_vec(), target: b"EUR".to_vec() }
    );
}

#[test]
fn rescheduling_a_pair_overwrites_instead_of_duplicating() {
    let mut pallet = Pallet::new();
    let mut registry = SchedulerRegistry::new();
    let first = pallet.schedule_monitoring(
        &Origin::Signed(1),
        b"USD".to_vec(),
        b"EUR".to_vec(),
        valid_schedule(),
        &mut registry,
    );
    assert_eq!(first, Ok(()));
    let second = pallet.schedule_monitoring(
        &Origin::Signed(1),
        b"USD".to_vec(),
        b"EUR".to_vec(),
        other_schedule(),
        &mut registry,
    );
    assert_eq!(second, Ok(()));
    assert_eq!(registry.count(), 1);

    let name = derive_schedule_name(&b"USD".to_vec(), &b"EUR".to_vec());
    let entry = registry.get(&name).expect("the pair must still be registered");
    assert_eq!(entry.schedule, other_schedule());
}

#[test]
fn distinct_pairs_register_separately() {
    let mut pallet = Pallet::new();
    let mut registry = SchedulerRegistry::new();
    let r1 = pallet.schedule_monitoring(
        &Origin::Signed(1),
        b"USD".to_vec(),
        b"EUR".to_vec(),
        valid_schedule(),
        &mut registry,
    );
    let r2 = pallet.schedule_monitoring(
        &Origin::Signed(1),
        b"USD".to_vec(),
        b"GBP".to_vec(),
        valid_schedule(),
        &mut registry,
    );
    assert_eq!(r1, Ok(()));
    assert_eq!(r2, Ok(()));
    assert_eq!(registry.count(), 2);
}

#[test]
fn rejected_schedule_leaves_no_registration() {
    let mut pallet = Pallet::new();
    let mut registry = SchedulerRegistry::new();
    let r = pallet.schedule_monitoring(
        &Origin::Signed(42),
        b"USD".to_vec(),
        b"EUR".to_vec(),
        malformed_schedule(),
        &mut registry,
    );
    assert_eq!(r, Err(Error::FailedToSchedule));
    assert_eq!(registry.count(), 0);
    let name = derive_schedule_name(&b"USD".to_vec(), &b"EUR".to_vec());
    assert!(registry.get(&name).is_none());
}

#[test]
fn rejected_reschedule_keeps_the_previous_registration() {
    let mut pallet = Pallet::new();
    let mut registry = SchedulerRegistry::new();
    let first = pallet.schedule_monitoring(
        &Origin::Signed(1),
        b"USD".to_vec(),
        b"EUR".to_vec(),
        valid_schedule(),
        &mut registry,
    );
    assert_eq!(first, Ok(()));
    let second = pallet.schedule_monitoring(
        &Origin::Signed(1),
        b"USD".to_vec(),
        b"EUR".to_vec(),
        malformed_schedule(),
        &mut registry,
    );
    assert_eq!(second, Err(Error::FailedToSchedule));
    assert_eq!(registry.count(), 1);
    let name = derive_schedule_name(&b"USD".to_vec(), &b"EUR".to_vec());
    let entry = registry.get(&name).expect("the earlier registration must survive");
    assert_eq!(entry.schedule, valid_schedule());
}

#[test]
fn anonymous_cannot_schedule() {
    let mut pallet = Pallet::new();
    let mut registry = SchedulerRegistry::new();
    let r = pallet.schedule_monitoring(
        &Origin::Anonymous,
        b"USD".to_vec(),
        b"EUR".to_vec(),
        valid_schedule(),
        &mut registry,
    );
    assert_eq!(r, Err(Error::BadOrigin));
    assert_eq!(registry.count(), 0);
}

#[test]
fn root_cannot_schedule() {
    // Registration is open to signed callers only, as dispatch is.
    let mut pallet = Pallet::new();
    let mut registry = SchedulerRegistry::new();
    let r = pallet.schedule_monitoring(
        &Origin::Root,
        b"USD".to_vec(),
        b"EUR".to_vec(),
        valid_schedule(),
        &mut registry,
    );
    assert_eq!(r, Err(Error::BadOrigin));
    assert_eq!(registry.count(), 0);
}

#[test]
fn registry_rejects_malformed_descriptor_directly() {
    let mut registry = SchedulerRegistry::new();
    let r = registry.schedule_named(
        b"USD-EUR".to_vec(),
        Schedule { start: 1, period: 1, occurrences: 0 },
        200,
        Origin::Root,
        Call::LookupPrice { source: b"USD".to_vec(), target: b"EUR".to_vec() },
    );
    assert!(r.is_err());
    assert_eq!(registry.count(), 0);
}
