//! The balance ledger: deposits and withdrawals on per-account balances.
use vstd::prelude::*;
use crate::store::{AccountId, AccountStore};

verus! {

/// An amount of the ledger's single currency.
pub type Balance = u32;

/// What a successful ledger transition records.
#[derive(Debug, Clone, Copy, PartialEq, Eq, Structural)]
pub enum Event {
    Deposited { who: AccountId, amount: Balance },
    Withdrawn { who: AccountId, amount: Balance },
}

/// Why a ledger transition was refused.
#[derive(Debug, Clone, Copy, PartialEq, Eq, Structural)]
pub enum Error {
    /// The amount is zero.
    InvalidAmount,
    /// The withdrawal exceeds the stored balance.
    NotEnough,
    /// The account has no balance entry.
    NoSuchOwner,
    /// The new balance would not fit in a `Balance`.
    Overflow,
}

/// The ledger's abstract state: the stored balances, as integers, and the
/// events recorded so far. An absent account has no entry, which is not the
/// same as a stored zero.
pub struct LedgerView {
    pub balances: Map<AccountId, int>,
    pub events: Seq<Event>,
}

/// What `deposit_money` does on `balances`: the new balance, or the error.
pub open spec fn deposit_outcome(balances: Map<AccountId, int>, who: AccountId, amount: Balance) -> Result<int, Error> {
    if amount == 0 {
        Err(Error::InvalidAmount)
    } else if !balances.contains_key(who) {
        Ok(amount as int)
    } else if balances[who] + amount > u32::MAX {
        Err(Error::Overflow)
    } else {
        Ok(balances[who] + amount)
    }
}

/// What `withdraw_money` does on `balances`: the new balance, or the error.
/// The checks come in this order; the first that fails decides.
pub open spec fn withdraw_outcome(balances: Map<AccountId, int>, who: AccountId, amount: Balance) -> Result<int, Error> {
    if !balances.contains_key(who) {
        Err(Error::NoSuchOwner)
    } else if amount == 0 {
        Err(Error::InvalidAmount)
    } else if amount > balances[who] {
        Err(Error::NotEnough)
    } else {
        Ok(balances[who] - amount)
    }
}

/// One ledger transition, as a caller submits it.
pub enum LedgerOp {
    Deposit(AccountId, Balance),
    Withdraw(AccountId, Balance),
}

/// The balances after `op` on `balances`; a refused transition leaves them
/// as they were.
pub open spec fn ledger_step(balances: Map<AccountId, int>, op: LedgerOp) -> Map<AccountId, int> {
    match op {
        LedgerOp::Deposit(who, amount) => match deposit_outcome(balances, who, amount) {
            Ok(b) => balances.insert(who, b),
            Err(_) => balances,
        },
        LedgerOp::Withdraw(who, amount) => match withdraw_outcome(balances, who, amount) {
            Ok(b) => balances.insert(who, b),
            Err(_) => balances,
        },
    }
}

/// The balances after the transitions of `ops`, in order.
pub open spec fn run_ledger(balances: Map<AccountId, int>, ops: Seq<LedgerOp>) -> Map<AccountId, int>
    decreases ops.len(),
{
    if ops.len() == 0 {
        balances
    } else {
        run_ledger(ledger_step(balances, ops[0]), ops.drop_first())
    }
}

/// Every stored balance lies in `Balance`'s range.
pub open spec fn balances_in_range(balances: Map<AccountId, int>) -> bool {
    forall|k: AccountId| #[trigger] balances.contains_key(k) ==> 0 <= balances[k] <= u32::MAX
}

/// No sequence of deposits and withdrawals drives a stored balance below
/// zero (or above `Balance`'s range): from balances in range, every
/// sequence of transitions ends in balances in range.
pub proof fn lemma_no_negative_balances(balances: Map<AccountId, int>, ops: Seq<LedgerOp>)
    requires
        balances_in_range(balances),
    ensures
        balances_in_range(run_ledger(balances, ops)),
        forall|k: AccountId| #[trigger] run_ledger(balances, ops).contains_key(k) ==> run_ledger(
            balances,
            ops,
        )[k] >= 0,
    decreases ops.len(),
{
    if ops.len() > 0 {
        let next = ledger_step(balances, ops[0]);
        assert(balances_in_range(next));
        lemma_no_negative_balances(next, ops.drop_first());
    }
}

/// What `credit` does: `minted` is added to the balance of `who` (an
/// absent entry counts as zero and is created) and `Deposited` with the
/// requested `amount` is recorded, or, where the sum leaves `Balance`'s range,
/// `Overflow` is returned and nothing changes.
pub open spec fn credited(
    before: LedgerView,
    after: LedgerView,
    r: Result<Balance, Error>,
    who: AccountId,
    amount: Balance,
    minted: Balance,
) -> bool {
    let sum = (if before.balances.contains_key(who) {
        before.balances[who]
    } else {
        0
    }) + minted;
    if sum > u32::MAX {
        r == Err::<Balance, Error>(Error::Overflow) && after == before
    } else {
        &&& r == Ok::<Balance, Error>(sum as Balance)
        &&& after.balances == before.balances.insert(who, sum)
        &&& after.events == before.events.push(Event::Deposited { who, amount })
    }
}

/// What `debit` does: `burned` is taken from the balance of `who` and
/// `Withdrawn` with the requested `amount` is recorded, or, where `who` has
/// no entry or `burned` exceeds its balance, `NoSuchOwner` or `NotEnough` is
/// returned and nothing changes.
pub open spec fn debited(
    before: LedgerView,
    after: LedgerView,
    r: Result<Balance, Error>,
    who: AccountId,
    amount: Balance,
    burned: Balance,
) -> bool {
    if !before.balances.contains_key(who) {
        r == Err::<Balance, Error>(Error::NoSuchOwner) && after == before
    } else if burned > before.balances[who] {
        r == Err::<Balance, Error>(Error::NotEnough) && after == before
    } else {
        &&& r == Ok::<Balance, Error>((before.balances[who] - burned) as Balance)
        &&& after.balances == before.balances.insert(who, before.balances[who] - burned)
        &&& after.events == before.events.push(Event::Withdrawn { who, amount })
    }
}

/// A currency that the ledger can draw on, supplied by the host: it
/// creates funds for an account on deposit and takes them away on
/// withdrawal. Nothing is assumed of what it returns.
pub trait Currency {
    /// Creates `amount` for `who`; returns the amount actually created.
    fn deposit_creating(&mut self, who: AccountId, amount: Balance) -> Balance;

    /// Takes `amount` from `who`; returns the amount actually taken, or the
    /// currency's refusal.
    fn withdraw(&mut self, who: AccountId, amount: Balance) -> Result<Balance, Error>;
}

/// The balance ledger.
pub struct Pallet {
    balances: AccountStore<Balance>,
    events: Vec<Event>,
}

impl View for Pallet {
    type V = LedgerView;

    closed spec fn view(&self) -> LedgerView {
        LedgerView {
            balances: self.balances@.map_values(|b: Balance| b as int),
            events: self.events@,
        }
    }
}

impl Pallet {
    /// A ledger with no accounts and no events.
    pub fn new() -> (p: Self)
        ensures
            p@.balances == Map::<AccountId, int>::empty(),
            p@.events == Seq::<Event>::empty(),
    {
        let p = Pallet { balances: AccountStore::new(), events: Vec::new() };
        assert(p@.balances =~= Map::<AccountId, int>::empty());
        p
    }

    /// The balance stored for `who`, if it has an entry.
    pub fn balance_of(&self, who: AccountId) -> (r: Option<Balance>)
        ensures
            match r {
                Some(b) => self@.balances.contains_key(who) && b as int == self@.balances[who],
                None => !self@.balances.contains_key(who),
            },
    {
        match self.balances.get(who) {
            Some(b) => Some(*b),
            None => None,
        }
    }

    /// The events recorded so far, oldest first.
    pub fn events(&self) -> (r: &Vec<Event>)
        ensures
            r@ == self@.events,
    {
        &self.events
    }

    /// Adds `minted` to the balance of `who`, creating the entry if there is
    /// none, and records `Deposited` with the requested `amount`. Returns the
    /// new balance. A sum beyond `Balance`'s range fails with `Overflow` and
    /// changes nothing.
    pub fn credit(&mut self, who: AccountId, amount: Balance, minted: Balance) -> (r: Result<Balance, Error>)
        ensures
            credited(old(self)@, final(self)@, r, who, amount, minted),
    {
        let ghost before = self@;
        let new_balance: Balance = match self.balances.get(who) {
            Some(current) => {
                if *current > u32::MAX - minted {
                    return Err(Error::Overflow);
                }
                *current + minted
            },
            None => minted,
        };
        self.balances.insert(who, new_balance);
        self.events.push(Event::Deposited { who, amount });
        assert(self@.balances =~= before.balances.insert(who, new_balance as int));
        Ok(new_balance)
    }

    /// Takes `burned` from the balance of `who` and records `Withdrawn` with
    /// the requested `amount`. Returns the new balance. Fails, changing
    /// nothing, with `NoSuchOwner` when `who` has no entry and with
    /// `NotEnough` when `burned` exceeds the balance.
    pub fn debit(&mut self, who: AccountId, amount: Balance, burned: Balance) -> (r: Result<Balance, Error>)
        ensures
            debited(old(self)@, final(self)@, r, who, amount, burned),
    {
        let ghost before = self@;
        let current: Balance = match self.balances.get(who) {
            Some(b) => *b,
            None => return Err(Error::NoSuchOwner),
        };
        if burned > current {
            return Err(Error::NotEnough);
        }
        let new_balance = current - burned;
        self.balances.insert(who, new_balance);
        self.events.push(Event::Withdrawn { who, amount });
        assert(self@.balances =~= before.balances.insert(who, new_balance as int));
        Ok(new_balance)
    }

    /// Adds `amount` to the balance of `who`, creating the entry if there is
    /// none, and records `Deposited`. Returns the new balance. A zero amount
    /// fails with `InvalidAmount`, a sum beyond `Balance`'s range with
    /// `Overflow`; a failure changes nothing.
    pub fn deposit_money(&mut self, who: AccountId, amount: Balance) -> (r: Result<Balance, Error>)
        ensures
            r matches Ok(b) ==> deposit_outcome(old(self)@.balances, who, amount) == Ok::<int, Error>(b as int),
            r matches Err(e) ==> deposit_outcome(old(self)@.balances, who, amount) == Err::<int, Error>(e),
            r matches Ok(b) ==> final(self)@.balances == old(self)@.balances.insert(who, b as int)
                && final(self)@.events == old(self)@.events.push(Event::Deposited { who, amount }),
            r is Err ==> final(self)@ == old(self)@,
            final(self)@.balances == ledger_step(old(self)@.balances, LedgerOp::Deposit(who, amount)),
            // a successful deposit adds exactly `amount` to what was there
            r matches Ok(b) ==> b == (if old(self)@.balances.contains_key(who) {
                old(self)@.balances[who]
            } else {
                0
            }) + amount,
            amount == 0 ==> r == Err::<Balance, Error>(Error::InvalidAmount),
    {
        if amount == 0 {
            return Err(Error::InvalidAmount);
        }
        self.credit(who, amount, amount)
    }

    /// Takes `amount` from the balance of `who` and records `Withdrawn`.
    /// Returns the new balance. Checked in order: `who` has no entry
    /// (`NoSuchOwner`), the amount is zero (`InvalidAmount`), the amount
    /// exceeds the balance (`NotEnough`); a failure changes nothing.
    pub fn withdraw_money(&mut self, who: AccountId, amount: Balance) -> (r: Result<Balance, Error>)
        ensures
            r matches Ok(b) ==> withdraw_outcome(old(self)@.balances, who, amount) == Ok::<int, Error>(b as int),
            r matches Err(e) ==> withdraw_outcome(old(self)@.balances, who, amount) == Err::<int, Error>(e),
            r matches Ok(b) ==> final(self)@.balances == old(self)@.balances.insert(who, b as int)
                && final(self)@.events == old(self)@.events.push(Event::Withdrawn { who, amount }),
            r is Err ==> final(self)@ == old(self)@,
            final(self)@.balances == ledger_step(old(self)@.balances, LedgerOp::Withdraw(who, amount)),
            // a withdrawal within the balance takes exactly `amount`
            old(self)@.balances.contains_key(who) && 0 < amount <= old(self)@.balances[who] ==> r
                == Ok::<Balance, Error>((old(self)@.balances[who] - amount) as Balance),
            // one beyond it is refused and the balance stays as it was
            old(self)@.balances.contains_key(who) && amount > old(self)@.balances[who] ==> r
                == Err::<Balance, Error>(Error::NotEnough) && final(self)@.balances == old(self)@.balances,
    {
        if !self.balances.contains(who) {
            return Err(Error::NoSuchOwner);
        }
        if amount == 0 {
            return Err(Error::InvalidAmount);
        }
        self.debit(who, amount, amount)
    }

    /// Deposits `amount` for `who` through `currency`: a zero amount fails
    /// with `InvalidAmount` before the currency is asked; otherwise the
    /// currency creates funds and the ledger credits what it reports as
    /// created (see `credit`).
    pub fn deposit_money_with<C: Currency>(&mut self, currency: &mut C, who: AccountId, amount: Balance) -> (r: Result<Balance, Error>)
        ensures
            amount == 0 ==> r == Err::<Balance, Error>(Error::InvalidAmount) && final(self)@ == old(self)@,
            amount > 0 ==> exists|minted: Balance| #[trigger] credited(old(self)@, final(self)@, r, who, amount, minted),
    {
        if amount == 0 {
            return Err(Error::InvalidAmount);
        }
        let minted = currency.deposit_creating(who, amount);
        let r = self.credit(who, amount, minted);
        assert(credited(old(self)@, self@, r, who, amount, minted));
        r
    }

    /// Withdraws `amount` for `who` through `currency`. Checked in order:
    /// `who` has no entry (`NoSuchOwner`), the amount is zero
    /// (`InvalidAmount`), the currency refuses (its error, passed on);
    /// otherwise the ledger debits what the currency reports as taken (see
    /// `debit`). A failure changes nothing in the ledger.
    pub fn withdraw_money_with<C: Currency>(&mut self, currency: &mut C, who: AccountId, amount: Balance) -> (r: Result<Balance, Error>)
        ensures
            !old(self)@.balances.contains_key(who) ==> r == Err::<Balance, Error>(Error::NoSuchOwner),
            old(self)@.balances.contains_key(who) && amount == 0 ==> r == Err::<Balance, Error>(Error::InvalidAmount),
            r is Err ==> final(self)@ == old(self)@,
            r is Ok ==> exists|burned: Balance| #[trigger] debited(old(self)@, final(self)@, r, who, amount, burned),
    {
        if !self.balances.contains(who) {
            return Err(Error::NoSuchOwner);
        }
        if amount == 0 {
            return Err(Error::InvalidAmount);
        }
        let burned = match currency.withdraw(who, amount) {
            Ok(b) => b,
            Err(e) => return Err(e),
        };
        let r = self.debit(who, amount, burned);
        assert(debited(old(self)@, self@, r, who, amount, burned));
        r
    }
}

} // verus!
