//! The claim registry: each account holds at most one claim on a car, which
//! it can create, revoke, or hand to another account.
use vstd::prelude::*;
use crate::store::{AccountId, AccountStore};

verus! {

/// A claim on one car. It is stored under its owner's account.
#[derive(Debug, Clone)]
pub struct Car {
    pub chassis_num: Option<u32>,
    pub brand_name: Vec<u8>,
    pub price: Option<u32>,
    pub owner: AccountId,
}

/// The abstract value of a `Car`.
pub struct CarView {
    pub chassis_num: Option<u32>,
    pub brand_name: Seq<u8>,
    pub price: Option<u32>,
    pub owner: AccountId,
}

impl View for Car {
    type V = CarView;

    open spec fn view(&self) -> CarView {
        CarView {
            chassis_num: self.chassis_num,
            brand_name: self.brand_name@,
            price: self.price,
            owner: self.owner,
        }
    }
}

/// What a successful registry transition records: the acting account and
/// the claim's fields. Absent optional fields stay absent.
#[derive(Debug, Clone)]
pub enum Event {
    ClaimCreated(AccountId, Option<u32>, Vec<u8>, Option<u32>),
    RevokeSuccessful(AccountId, Option<u32>, Vec<u8>, Option<u32>),
    TransferSuccessful(AccountId, Option<u32>, Vec<u8>, Option<u32>),
}

/// The abstract value of an `Event`.
pub enum EventView {
    ClaimCreated(AccountId, Option<u32>, Seq<u8>, Option<u32>),
    RevokeSuccessful(AccountId, Option<u32>, Seq<u8>, Option<u32>),
    TransferSuccessful(AccountId, Option<u32>, Seq<u8>, Option<u32>),
}

impl View for Event {
    type V = EventView;

    open spec fn view(&self) -> EventView {
        match self {
            Event::ClaimCreated(a, c, b, p) => EventView::ClaimCreated(*a, *c, b@, *p),
            Event::RevokeSuccessful(a, c, b, p) => EventView::RevokeSuccessful(*a, *c, b@, *p),
            Event::TransferSuccessful(a, c, b, p) => EventView::TransferSuccessful(*a, *c, b@, *p),
        }
    }
}

/// Why a registry transition was refused.
#[derive(Debug, Clone, Copy, PartialEq, Eq, Structural)]
pub enum Error {
    /// The acting account holds no claim.
    NoSuchCarOwner,
    /// The account already holds a claim.
    CarProofAlreadyExists,
    /// The stored claim names another owner than the account it is stored under.
    NotCarOwner,
    /// A transfer names the same account as source and destination.
    SameOwnerTransfer,
    /// The destination of a transfer already holds a claim.
    DestinationAlreadyOwnsClaim,
}

/// The registry's abstract state: the claim held by each account, and the
/// events recorded so far.
pub struct RegistryView {
    pub claims: Map<AccountId, CarView>,
    pub events: Seq<EventView>,
}

/// Every stored claim names as owner the account it is stored under.
pub open spec fn owners_match(claims: Map<AccountId, CarView>) -> bool {
    forall|k: AccountId| #[trigger] claims.contains_key(k) ==> claims[k].owner == k
}

/// `c` with its owner replaced by `to`.
pub open spec fn reowned(c: CarView, to: AccountId) -> CarView {
    CarView { owner: to, ..c }
}

/// One registry transition, as a caller submits it.
pub enum RegistryOp {
    Create(AccountId, Option<u32>, Seq<u8>, Option<u32>),
    Revoke(AccountId),
    Transfer(AccountId, AccountId),
}

/// The claims after `op` on `claims`; a refused transition leaves them as
/// they were.
pub open spec fn registry_step(claims: Map<AccountId, CarView>, op: RegistryOp) -> Map<AccountId, CarView> {
    match op {
        RegistryOp::Create(owner, chassis_num, brand_name, price) => if claims.contains_key(owner) {
            claims
        } else {
            claims.insert(owner, CarView { chassis_num, brand_name, price, owner })
        },
        RegistryOp::Revoke(who) => if claims.contains_key(who) && claims[who].owner == who {
            claims.remove(who)
        } else {
            claims
        },
        RegistryOp::Transfer(from, to) => if from != to && claims.contains_key(from)
            && !claims.contains_key(to) {
            claims.remove(from).insert(to, reowned(claims[from], to))
        } else {
            claims
        },
    }
}

/// The claims after the transitions of `ops`, in order.
pub open spec fn run_registry(claims: Map<AccountId, CarView>, ops: Seq<RegistryOp>) -> Map<AccountId, CarView>
    decreases ops.len(),
{
    if ops.len() == 0 {
        claims
    } else {
        run_registry(registry_step(claims, ops[0]), ops.drop_first())
    }
}

/// Claims stay unique and keyed by their owner: an account holds at most
/// one claim (the claims form a map keyed by account), and after any
/// sequence of transitions every stored claim names as owner the account
/// it is stored under.
pub proof fn lemma_claims_keyed_by_owner(claims: Map<AccountId, CarView>, ops: Seq<RegistryOp>)
    requires
        owners_match(claims),
    ensures
        owners_match(run_registry(claims, ops)),
    decreases ops.len(),
{
    if ops.len() > 0 {
        let next = registry_step(claims, ops[0]);
        assert(owners_match(next));
        lemma_claims_keyed_by_owner(next, ops.drop_first());
    }
}

/// The claim registry.
pub struct Pallet {
    cars: AccountStore<Car>,
    events: Vec<Event>,
}

impl View for Pallet {
    type V = RegistryView;

    closed spec fn view(&self) -> RegistryView {
        RegistryView {
            claims: self.cars@.map_values(|c: Car| c@),
            events: self.events@.map_values(|e: Event| e@),
        }
    }
}

impl Pallet {
    /// The registry's invariant.
    pub open spec fn wf(&self) -> bool {
        owners_match(self@.claims)
    }

    /// A registry with no claims and no events.
    pub fn new() -> (p: Self)
        ensures
            p.wf(),
            p@.claims == Map::<AccountId, CarView>::empty(),
            p@.events == Seq::<EventView>::empty(),
    {
        let p = Pallet { cars: AccountStore::new(), events: Vec::new() };
        assert(p@.claims =~= Map::<AccountId, CarView>::empty());
        assert(p@.events =~= Seq::<EventView>::empty());
        p
    }

    /// The claim held by `who`, if any.
    pub fn get(&self, who: AccountId) -> (r: Option<&Car>)
        ensures
            match r {
                Some(c) => self@.claims.contains_key(who) && c@ == self@.claims[who],
                None => !self@.claims.contains_key(who),
            },
    {
        self.cars.get(who)
    }

    /// Whether `who` holds a claim.
    pub fn contains(&self, who: AccountId) -> (r: bool)
        ensures
            r == self@.claims.contains_key(who),
    {
        self.cars.contains(who)
    }

    /// The events recorded so far, oldest first.
    pub fn events(&self) -> (r: &Vec<Event>)
        ensures
            r@.map_values(|e: Event| e@) == self@.events,
    {
        &self.events
    }

    /// A claim with the given fields, owned by `owner`.
    pub fn create_car(
        owner: &AccountId,
        chassis_num: Option<u32>,
        brand_name: Vec<u8>,
        price: Option<u32>,
    ) -> (r: Result<Car, Error>)
        ensures
            r matches Ok(c) && c@ == (CarView {
                chassis_num,
                brand_name: brand_name@,
                price,
                owner: *owner,
            }),
    {
        Ok(Car { chassis_num, brand_name, price, owner: *owner })
    }

    /// Records a claim for `owner` with the given fields and the event
    /// `ClaimCreated`, and returns the claim. Fails with
    /// `CarProofAlreadyExists`, changing nothing, when `owner` already holds
    /// one.
    pub fn create_claim(
        &mut self,
        owner: AccountId,
        chassis_num: Option<u32>,
        brand_name: Vec<u8>,
        price: Option<u32>,
    ) -> (r: Result<Car, Error>)
        requires
            old(self).wf(),
        ensures
            final(self).wf(),
            old(self)@.claims.contains_key(owner) ==> r == Err::<Car, Error>(
                Error::CarProofAlreadyExists,
            ),
            !old(self)@.claims.contains_key(owner) ==> r is Ok,
            r matches Ok(c) ==> c@ == (CarView {
                chassis_num,
                brand_name: brand_name@,
                price,
                owner,
            }) && final(self)@.claims == old(self)@.claims.insert(owner, c@)
                && final(self)@.events == old(self)@.events.push(
                EventView::ClaimCreated(owner, chassis_num, brand_name@, price),
            ),
            r is Err ==> final(self)@ == old(self)@,
            final(self)@.claims == registry_step(
                old(self)@.claims,
                RegistryOp::Create(owner, chassis_num, brand_name@, price),
            ),
    {
        if self.cars.contains(owner) {
            return Err(Error::CarProofAlreadyExists);
        }
        let ghost before = self@;
        let event_name = brand_name.clone();
        let stored_name = brand_name.clone();
        assert(event_name@ =~= brand_name@);
        assert(stored_name@ =~= brand_name@);
        let car = match Self::create_car(&owner, chassis_num, brand_name, price) {
            Ok(c) => c,
            Err(e) => return Err(e),
        };
        let stored = Car { chassis_num, brand_name: stored_name, price, owner };
        self.cars.insert(owner, stored);
        self.events.push(Event::ClaimCreated(owner, chassis_num, event_name, price));
        assert(self@.claims =~= before.claims.insert(owner, car@));
        assert(self@.events =~= before.events.push(
            EventView::ClaimCreated(owner, chassis_num, car.brand_name@, price),
        ));
        Ok(car)
    }

    /// Removes the claim of `who`, records `RevokeSuccessful`, and returns
    /// the removed claim. Fails with `NoSuchCarOwner` when `who` holds none,
    /// and with `NotCarOwner` when the stored claim names another owner;
    /// a failure changes nothing.
    pub fn revoke_claim(&mut self, who: AccountId) -> (r: Result<Car, Error>)
        requires
            old(self).wf(),
        ensures
            final(self).wf(),
            !old(self)@.claims.contains_key(who) ==> r == Err::<Car, Error>(Error::NoSuchCarOwner),
            old(self)@.claims.contains_key(who) && old(self)@.claims[who].owner != who ==> r
                == Err::<Car, Error>(Error::NotCarOwner),
            old(self)@.claims.contains_key(who) && old(self)@.claims[who].owner == who ==> r is Ok,
            r matches Ok(c) ==> c@ == old(self)@.claims[who] && final(self)@.claims == old(
                self,
            )@.claims.remove(who) && final(self)@.events == old(self)@.events.push(
                EventView::RevokeSuccessful(who, c.chassis_num, c.brand_name@, c.price),
            ),
            r is Err ==> final(self)@ == old(self)@,
            final(self)@.claims == registry_step(old(self)@.claims, RegistryOp::Revoke(who)),
    {
        let ghost before = self@;
        let car_owner = match self.cars.get(who) {
            Some(c) => c.owner,
            None => return Err(Error::NoSuchCarOwner),
        };
        if car_owner != who {
            return Err(Error::NotCarOwner);
        }
        let car = self.cars.remove(who).unwrap();
        let event_name = car.brand_name.clone();
        assert(event_name@ =~= car.brand_name@);
        self.events.push(Event::RevokeSuccessful(who, car.chassis_num, event_name, car.price));
        assert(self@.claims =~= before.claims.remove(who));
        assert(self@.events =~= before.events.push(
            EventView::RevokeSuccessful(who, car.chassis_num, car.brand_name@, car.price),
        ));
        Ok(car)
    }

    /// Moves the claim of `from` to `to`, with its owner set to `to`, and
    /// records `TransferSuccessful` with `from` and the claim's fields.
    /// Checked in order: `from == to` (`SameOwnerTransfer`), `from` holds no
    /// claim (`NoSuchCarOwner`), `to` already holds one
    /// (`DestinationAlreadyOwnsClaim`); a failure changes nothing.
    pub fn transfer_claim(&mut self, from: AccountId, to: AccountId) -> (r: Result<(), Error>)
        requires
            old(self).wf(),
        ensures
            final(self).wf(),
            r == (if from == to {
                Err::<(), Error>(Error::SameOwnerTransfer)
            } else if !old(self)@.claims.contains_key(from) {
                Err(Error::NoSuchCarOwner)
            } else if old(self)@.claims.contains_key(to) {
                Err(Error::DestinationAlreadyOwnsClaim)
            } else {
                Ok(())
            }),
            r is Ok ==> !final(self)@.claims.contains_key(from) && final(self)@.claims.contains_key(to)
                && final(self)@.claims[to] == reowned(old(self)@.claims[from], to),
            r is Ok ==> {
                let c = old(self)@.claims[from];
                &&& final(self)@.claims == old(self)@.claims.remove(from).insert(to, reowned(c, to))
                &&& final(self)@.events == old(self)@.events.push(
                    EventView::TransferSuccessful(from, c.chassis_num, c.brand_name, c.price),
                )
            },
            r is Err ==> final(self)@ == old(self)@,
            final(self)@.claims == registry_step(old(self)@.claims, RegistryOp::Transfer(from, to)),
    {
        if from == to {
            return Err(Error::SameOwnerTransfer);
        }
        if !self.cars.contains(from) {
            return Err(Error::NoSuchCarOwner);
        }
        if self.cars.contains(to) {
            return Err(Error::DestinationAlreadyOwnsClaim);
        }
        let ghost before = self@;
        let car = self.cars.remove(from).unwrap();
        let ghost c = car@;
        let event_name = car.brand_name.clone();
        assert(event_name@ =~= car.brand_name@);
        let chassis_num = car.chassis_num;
        let price = car.price;
        let moved = Car { owner: to, ..car };
        self.cars.insert(to, moved);
        self.events.push(Event::TransferSuccessful(from, chassis_num, event_name, price));
        assert(self@.claims =~= before.claims.remove(from).insert(to, reowned(c, to)));
        assert(self@.events =~= before.events.push(
            EventView::TransferSuccessful(from, c.chassis_num, c.brand_name, c.price),
        ));
        Ok(())
    }
}

} // verus!
