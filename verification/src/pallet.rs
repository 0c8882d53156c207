//! The module's dispatchable operations.
//!
//! Every operation first checks the caller's origin and performs no side
//! effect when the check fails. The operations either emit a notification
//! event, hand monitoring operations on to the price-routing service, or
//! register a delayed price lookup with the scheduling service under a
//! name derived from the pair being monitored.

use vstd::prelude::*;
use crate::name::derive_schedule_name;
use crate::name::schedule_name_of;
use crate::origin::Origin;
use crate::price::PricePath;
use crate::price::ProviderPairOperation;
use crate::schedule::Schedule;
use crate::scheduler::Call;
use crate::scheduler::SchedulerRegistry;
use crate::scheduler::entry_view;
use crate::scheduler::lookup_call_view;

verus! {

/// Why an operation was refused.
#[derive(Clone, Copy, PartialEq, Eq, Debug)]
pub enum Error {
    /// The caller's origin does not authorize the operation.
    BadOrigin,
    /// The scheduling service refused the registration.
    FailedToSchedule,
}

/// The notifications the module emits.
#[derive(Clone, PartialEq, Eq, Debug)]
pub enum Event {
    /// A greeting from a signed origin: the block it arrived in and the
    /// account that sent it.
    Hello(u64, u64),
    /// A greeting from the administrative origin: the block it arrived in.
    HelloRoot(u64),
    /// A price-path lookup was performed for the pair; the path is absent
    /// when the price-routing service knows none.
    PricePathLookup(Vec<u8>, Vec<u8>, Option<PricePath>),
    /// Acknowledgement of a version update.
    PostUpdateAck,
}

/// The priority every delayed lookup is registered at.
pub const SCHEDULE_PRIORITY: u8 = 200;

/// The module's own state: the notifications it has emitted, oldest first.
pub struct Pallet {
    pub events: Vec<Event>,
}

/// Accepts a signed origin and names its account; refuses everything else.
fn ensure_signed(origin: &Origin) -> (r: Result<u64, Error>)
    ensures
        match *origin {
            Origin::Signed(who) => r == Ok::<u64, Error>(who),
            _ => r == Err::<u64, Error>(Error::BadOrigin),
        },
{
    match origin {
        Origin::Signed(who) => Ok(*who),
        _ => Err(Error::BadOrigin),
    }
}

/// Accepts a signed origin (naming its account) or the administrative
/// origin; refuses an anonymous caller.
fn ensure_signed_or_root(origin: &Origin) -> (r: Result<Option<u64>, Error>)
    ensures
        match *origin {
            Origin::Signed(who) => r == Ok::<Option<u64>, Error>(Some(who)),
            Origin::Root => r == Ok::<Option<u64>, Error>(None),
            Origin::Anonymous => r == Err::<Option<u64>, Error>(Error::BadOrigin),
        },
{
    match origin {
        Origin::Signed(who) => Ok(Some(*who)),
        Origin::Root => Ok(None),
        Origin::Anonymous => Err(Error::BadOrigin),
    }
}

impl Pallet {
    /// A module that has emitted nothing yet.
    pub fn new() -> (r: Pallet)
        ensures
            r.events@ == Seq::<Event>::empty(),
    {
        Pallet { events: Vec::new() }
    }

    /// Emits a greeting naming the caller: `Hello` for a signed origin,
    /// `HelloRoot` for the administrative origin. An anonymous caller is
    /// refused and nothing is emitted. `now` is the current block number,
    /// supplied by the host runtime.
    pub fn hello(&mut self, origin: &Origin, now: u64) -> (r: Result<(), Error>)
        ensures
            match *origin {
                Origin::Signed(who) => r == Ok::<(), Error>(()) && final(self).events@ == old(
                    self,
                ).events@.push(Event::Hello(now, who)),
                Origin::Root => r == Ok::<(), Error>(()) && final(self).events@ == old(
                    self,
                ).events@.push(Event::HelloRoot(now)),
                Origin::Anonymous => r == Err::<(), Error>(Error::BadOrigin) && *final(self)
                    == *old(self),
            },
    {
        let who = match ensure_signed_or_root(origin) {
            Ok(who) => who,
            Err(e) => {
                return Err(e);
            },
        };
        match who {
            Some(who) => self.events.push(Event::Hello(now, who)),
            None => self.events.push(Event::HelloRoot(now)),
        }
        Ok(())
    }

    /// Accepts monitoring operations from a signed caller and hands them,
    /// unchanged and in order, to the price-routing service; the returned
    /// operations are exactly what is forwarded. Any other caller is
    /// refused. No notification is emitted either way.
    pub fn submit_monitored_pairs(
        &mut self,
        origin: &Origin,
        operations: Vec<ProviderPairOperation>,
    ) -> (r: Result<Vec<ProviderPairOperation>, Error>)
        ensures
            *final(self) == *old(self),
            origin.is_signed() ==> r == Ok::<Vec<ProviderPairOperation>, Error>(operations),
            !origin.is_signed() ==> r == Err::<Vec<ProviderPairOperation>, Error>(
                Error::BadOrigin,
            ),
    {
        match ensure_signed(origin) {
            Ok(_) => Ok(operations),
            Err(e) => Err(e),
        }
    }

    /// Registers a delayed lookup of the pair's price path with the
    /// scheduling service, under the name derived from the pair, at the
    /// fixed priority, to run under the administrative identity.
    ///
    /// Only a signed caller may register; the registration carries the same
    /// pair back to `lookup_price`. A pair already registered is
    /// re-registered under the same name, overwriting the earlier
    /// registration. If the scheduler refuses the descriptor, the call
    /// fails with `FailedToSchedule` and the registry is untouched. No
    /// notification is emitted either way.
    pub fn schedule_monitoring(
        &mut self,
        origin: &Origin,
        source: Vec<u8>,
        target: Vec<u8>,
        schedule: Schedule,
        scheduler: &mut SchedulerRegistry,
    ) -> (r: Result<(), Error>)
        requires
            old(scheduler).wf(),
            source@.len() > 0,
            target@.len() > 0,
        ensures
            final(scheduler).wf(),
            *final(self) == *old(self),
            match *origin {
                Origin::Signed(_) => (if schedule.valid() {
                    r == Ok::<(), Error>(()) && final(scheduler)@ == old(scheduler)@.insert(
                        schedule_name_of(source@, target@),
                        entry_view(
                            schedule,
                            SCHEDULE_PRIORITY,
                            Origin::Root,
                            lookup_call_view(source@, target@),
                        ),
                    )
                } else {
                    r == Err::<(), Error>(Error::FailedToSchedule) && *final(scheduler) == *old(
                        scheduler,
                    )
                }),
                _ => r == Err::<(), Error>(Error::BadOrigin) && *final(scheduler) == *old(
                    scheduler,
                ),
            },
    {
        match ensure_signed(origin) {
            Ok(_) => {},
            Err(e) => {
                return Err(e);
            },
        }
        let schedule_id = derive_schedule_name(&source, &target);
        let call = Call::LookupPrice { source, target };
        match scheduler.schedule_named(schedule_id, schedule, SCHEDULE_PRIORITY, Origin::Root, call)
        {
            Ok(_) => Ok(()),
            Err(_) => Err(Error::FailedToSchedule),
        }
    }

    /// Emits the lookup notification for a pair: the pair and the price
    /// path the price-routing service reported for it, which is absent —
    /// not an error — when no path is known. Invoked directly by a signed
    /// caller or, when triggered by the scheduler, under the administrative
    /// identity; an anonymous caller is refused and nothing is emitted.
    pub fn lookup_price(
        &mut self,
        origin: &Origin,
        source: Vec<u8>,
        target: Vec<u8>,
        price_path: Option<PricePath>,
    ) -> (r: Result<(), Error>)
        ensures
            origin.is_signed_or_root() ==> r == Ok::<(), Error>(()) && final(self).events@ == old(
                self,
            ).events@.push(Event::PricePathLookup(source, target, price_path)),
            !origin.is_signed_or_root() ==> r == Err::<(), Error>(Error::BadOrigin) && *final(self)
                == *old(self),
    {
        match ensure_signed_or_root(origin) {
            Ok(_) => {},
            Err(e) => {
                return Err(e);
            },
        }
        self.events.push(Event::PricePathLookup(source, target, price_path));
        Ok(())
    }

    /// Emits the version-update acknowledgement for a signed caller; any
    /// other caller is refused and nothing is emitted.
    pub fn post_update_ack(&mut self, origin: &Origin) -> (r: Result<(), Error>)
        ensures
            origin.is_signed() ==> r == Ok::<(), Error>(()) && final(self).events@ == old(
                self,
            ).events@.push(Event::PostUpdateAck),
            !origin.is_signed() ==> r == Err::<(), Error>(Error::BadOrigin) && *final(self) == *old(
                self,
            ),
    {
        match ensure_signed(origin) {
            Ok(_) => {},
            Err(e) => {
                return Err(e);
            },
        }
        self.events.push(Event::PostUpdateAck);
        Ok(())
    }
}

} // verus!
