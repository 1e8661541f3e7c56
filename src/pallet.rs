use std::collections::BTreeMap;
use vstd::prelude::*;

use crate::accounting::{
    added_seconds, exceeds_payment_bound, extend_membership, extended, payment_bound, Moment,
};
use crate::club::{
    fresh_club, with_member, with_owner, with_rate, AccountId, Club, ClubId, ClubView,
};
use crate::ledger::{Balance, ExistenceRequirement, Ledger};

verus! {

broadcast use vstd::std_specs::btree::group_btree_axioms;

/// Who issued a request.
#[derive(Clone, Copy, Debug, PartialEq, Eq)]
pub enum Origin {
    /// The administrative identity.
    Root,
    /// An account that signed the request.
    Signed(AccountId),
    /// Nobody in particular.
    Unsigned,
}

/// Why an operation was rejected. A rejected operation changes nothing.
#[derive(Clone, Copy, Debug, PartialEq, Eq)]
pub enum Error {
    /// No club is registered under the identifier, or the caller is not
    /// one of its members.
    ClubDoesNotExist,
    /// The caller does not own the club.
    NotOwner,
    /// The payment is above what the club's rate allows.
    TooManyTokens,
    /// The ledger could not settle the transfer.
    InsufficientFunds,
    /// The origin lacks the privilege the operation asks for.
    Unauthorized,
}

/// Emitted once for each operation that succeeds.
#[derive(Clone, Copy, Debug, PartialEq, Eq)]
pub enum Event {
    ClubCreated { club_id: ClubId },
    NewOwner { new_owner: AccountId, club_id: ClubId },
    AnnualExpensesSet { club_id: ClubId },
    MemberAdded { member: AccountId, club_id: ClubId },
    MembershipExpensePaid { member: AccountId, club_id: ClubId },
}

/// A transfer that an operation asks of the ledger.
#[derive(Clone, Copy, Debug, PartialEq, Eq)]
pub struct Transfer {
    pub from: AccountId,
    pub to: AccountId,
    pub amount: Balance,
    pub existence: ExistenceRequirement,
}

/// The fee for adding a member: the owner pays itself one unit.
pub open spec fn fee_transfer(owner: AccountId) -> Transfer {
    Transfer { from: owner, to: owner, amount: 1, existence: ExistenceRequirement::AllowDeath }
}

/// The dues for a payment to club `c` by member `who`: the club's rate, from
/// the member to the owner.
pub open spec fn dues_transfer(c: ClubView, who: AccountId) -> Transfer {
    Transfer {
        from: who,
        to: c.owner,
        amount: c.annual_expenses as Balance,
        existence: ExistenceRequirement::AllowDeath,
    }
}

/// The registry and its event log as plain values.
pub struct PalletView {
    pub clubs: Map<ClubId, ClubView>,
    pub events: Seq<Event>,
}

/// The account that signed `origin`, or `Unauthorized`.
pub open spec fn signer(origin: Origin) -> Result<AccountId, Error> {
    match origin {
        Origin::Signed(who) => Ok(who),
        _ => Err(Error::Unauthorized),
    }
}

/// The owner of club `club_id` when `origin` is that owner, else the first
/// check that fails.
pub open spec fn owner_check(clubs: Map<ClubId, ClubView>, origin: Origin, club_id: ClubId) -> Result<
    AccountId,
    Error,
> {
    match signer(origin) {
        Err(e) => Err(e),
        Ok(who) => if !clubs.contains_key(club_id) {
            Err(Error::ClubDoesNotExist)
        } else if clubs[club_id].owner != who {
            Err(Error::NotOwner)
        } else {
            Ok(who)
        },
    }
}

/// The paying member when `origin` is a member of club `club_id` and may pay
/// `amount`, else the first check that fails.
pub open spec fn payment_check(
    clubs: Map<ClubId, ClubView>,
    origin: Origin,
    club_id: ClubId,
    amount: u32,
) -> Result<AccountId, Error> {
    match signer(origin) {
        Err(e) => Err(e),
        Ok(who) => if !clubs.contains_key(club_id) {
            Err(Error::ClubDoesNotExist)
        } else if !clubs[club_id].members.contains_key(who) {
            Err(Error::ClubDoesNotExist)
        } else if amount as int > payment_bound(clubs[club_id].annual_expenses) {
            Err(Error::TooManyTokens)
        } else {
            Ok(who)
        },
    }
}

/// `s` after a successful operation that replaced club `club_id` by `c` and
/// emitted `ev`.
pub open spec fn committed(s: PalletView, club_id: ClubId, c: ClubView, ev: Event) -> PalletView {
    PalletView { clubs: s.clubs.insert(club_id, c), events: s.events.push(ev) }
}

/// What `create_club` leaves and returns.
pub open spec fn create_club_outcome(
    s: PalletView,
    origin: Origin,
    owner: AccountId,
    club_id: ClubId,
    annual_expenses: u32,
) -> (PalletView, Result<(), Error>) {
    match origin {
        Origin::Root => (
            committed(s, club_id, fresh_club(owner, annual_expenses), Event::ClubCreated { club_id }),
            Ok(()),
        ),
        _ => (s, Err(Error::Unauthorized)),
    }
}

/// What `transfer_ownership` leaves and returns.
pub open spec fn transfer_ownership_outcome(
    s: PalletView,
    origin: Origin,
    new_owner: AccountId,
    club_id: ClubId,
) -> (PalletView, Result<(), Error>) {
    match owner_check(s.clubs, origin, club_id) {
        Err(e) => (s, Err(e)),
        Ok(_) => (
            committed(
                s,
                club_id,
                with_owner(s.clubs[club_id], new_owner),
                Event::NewOwner { new_owner, club_id },
            ),
            Ok(()),
        ),
    }
}

/// What `set_annual_expense` leaves and returns.
pub open spec fn set_annual_expense_outcome(
    s: PalletView,
    origin: Origin,
    club_id: ClubId,
    expense: u32,
) -> (PalletView, Result<(), Error>) {
    match owner_check(s.clubs, origin, club_id) {
        Err(e) => (s, Err(e)),
        Ok(_) => (
            committed(
                s,
                club_id,
                with_rate(s.clubs[club_id], expense),
                Event::AnnualExpensesSet { club_id },
            ),
            Ok(()),
        ),
    }
}

/// What `add_member` leaves and returns, given whether the ledger made the
/// owner's fee transfer.
pub open spec fn add_member_outcome(
    s: PalletView,
    origin: Origin,
    club_id: ClubId,
    member: AccountId,
    now: Moment,
    transferred: bool,
) -> (PalletView, Result<(), Error>) {
    match owner_check(s.clubs, origin, club_id) {
        Err(e) => (s, Err(e)),
        Ok(_) => if !transferred {
            (s, Err(Error::InsufficientFunds))
        } else {
            (
                committed(
                    s,
                    club_id,
                    with_member(s.clubs[club_id], member, now),
                    Event::MemberAdded { member, club_id },
                ),
                Ok(()),
            )
        },
    }
}

/// The club `c` after `member` paid `amount`: its paid-through moment moves
/// on by the whole periods bought at the club's rate.
pub open spec fn paid_club(c: ClubView, member: AccountId, amount: u32) -> ClubView {
    with_member(
        c,
        member,
        extended(c.members[member], added_seconds(c.annual_expenses, amount)),
    )
}

/// What `pay_membership_expense` leaves and returns, given whether the ledger
/// moved the dues from the member to the owner.
pub open spec fn pay_membership_expense_outcome(
    s: PalletView,
    origin: Origin,
    club_id: ClubId,
    amount: u32,
    transferred: bool,
) -> (PalletView, Result<(), Error>) {
    match payment_check(s.clubs, origin, club_id, amount) {
        Err(e) => (s, Err(e)),
        Ok(who) => if !transferred {
            (s, Err(Error::InsufficientFunds))
        } else {
            (
                committed(
                    s,
                    club_id,
                    paid_club(s.clubs[club_id], who, amount),
                    Event::MembershipExpensePaid { member: who, club_id },
                ),
                Ok(()),
            )
        },
    }
}

/// The account that signed `origin`, or `Unauthorized`.
pub fn ensure_signed(origin: Origin) -> (r: Result<AccountId, Error>)
    ensures
        r == signer(origin),
{
    match origin {
        Origin::Signed(who) => Ok(who),
        _ => Err(Error::Unauthorized),
    }
}

/// Succeeds only for the administrative origin.
pub fn ensure_root(origin: Origin) -> (r: Result<(), Error>)
    ensures
        r is Ok <==> origin == Origin::Root,
        r is Err ==> r == Err::<(), Error>(Error::Unauthorized),
{
    match origin {
        Origin::Root => Ok(()),
        _ => Err(Error::Unauthorized),
    }
}

/// The club registry: clubs by identifier, and the events emitted so far.
pub struct Pallet {
    clubs: BTreeMap<ClubId, Club>,
    events: Vec<Event>,
}

impl View for Pallet {
    type V = PalletView;

    closed spec fn view(&self) -> PalletView {
        PalletView { clubs: self.clubs@.map_values(|c: Club| c@), events: self.events@ }
    }
}

impl Pallet {
    /// An empty registry with no events.
    pub fn new() -> (r: Pallet)
        ensures
            r@.clubs == Map::<ClubId, ClubView>::empty(),
            r@.events == Seq::<Event>::empty(),
    {
        let r = Pallet { clubs: BTreeMap::new(), events: Vec::new() };
        assert(r@.clubs =~= Map::<ClubId, ClubView>::empty());
        r
    }

    /// The club registered under `club_id`, if any.
    pub fn get(&self, club_id: ClubId) -> (r: Option<&Club>)
        ensures
            match r {
                Some(c) => self@.clubs.contains_key(club_id) && c@ == self@.clubs[club_id],
                None => !self@.clubs.contains_key(club_id),
            },
    {
        self.clubs.get(&club_id)
    }

    /// The events emitted so far, oldest first.
    pub fn events(&self) -> (r: &Vec<Event>)
        ensures
            r@ == self@.events,
    {
        &self.events
    }

    /// The most recent event, if any.
    pub fn last_event(&self) -> (r: Option<Event>)
        ensures
            self@.events.len() == 0 ==> r is None,
            self@.events.len() > 0 ==> r == Some(self@.events.last()),
    {
        if self.events.len() == 0 {
            None
        } else {
            Some(self.events[self.events.len() - 1])
        }
    }

    /// Installs `club` under `club_id`, replacing any club there.
    fn put(&mut self, club_id: ClubId, club: Club)
        ensures
            final(self)@.clubs == old(self)@.clubs.insert(club_id, club@),
            final(self)@.events == old(self)@.events,
    {
        let ghost c = club@;
        self.clubs.insert(club_id, club);
        assert(self@.clubs =~= old(self)@.clubs.insert(club_id, c));
    }

    /// Records `ev` in the event log.
    fn deposit_event(&mut self, ev: Event)
        ensures
            final(self)@.clubs == old(self)@.clubs,
            final(self)@.events == old(self)@.events.push(ev),
    {
        self.events.push(ev);
    }

    /// Takes club `club_id` out of the registry when `origin` is its owner,
    /// handing back the owner and the record; otherwise changes nothing.
    fn take_owned(&mut self, origin: Origin, club_id: ClubId) -> (r: Result<(AccountId, Club), Error>)
        ensures
            match owner_check(old(self)@.clubs, origin, club_id) {
                Err(e) => r == Err::<(AccountId, Club), Error>(e) && final(self)@ == old(self)@,
                Ok(who) => r is Ok && r->Ok_0.0 == who && r->Ok_0.1@ == old(self)@.clubs[club_id]
                    && final(self)@.clubs == old(self)@.clubs.remove(club_id)
                    && final(self)@.events == old(self)@.events,
            },
    {
        let who = match ensure_signed(origin) {
            Ok(who) => who,
            Err(e) => return Err(e),
        };
        match self.clubs.remove(&club_id) {
            None => {
                assert(self.clubs@ =~= old(self).clubs@);
                Err(Error::ClubDoesNotExist)
            },
            Some(club) => {
                assert(self@.clubs =~= old(self)@.clubs.remove(club_id));
                if club.owner != who {
                    self.put(club_id, club);
                    assert(self@.clubs =~= old(self)@.clubs);
                    Err(Error::NotOwner)
                } else {
                    Ok((who, club))
                }
            },
        }
    }

    /// Registers a club under `club_id` with the given owner and rate and no
    /// members, replacing any club there. Only the administrative origin may.
    pub fn create_club(
        &mut self,
        origin: Origin,
        owner: AccountId,
        club_id: ClubId,
        annual_expenses: u32,
    ) -> (r: Result<(), Error>)
        ensures
            (final(self)@, r) == create_club_outcome(
                old(self)@,
                origin,
                owner,
                club_id,
                annual_expenses,
            ),
    {
        match ensure_root(origin) {
            Err(e) => Err(e),
            Ok(()) => {
                self.put(club_id, Club::new(owner, annual_expenses));
                self.deposit_event(Event::ClubCreated { club_id });
                Ok(())
            },
        }
    }

    /// Hands club `club_id` to `new_owner`. Only its owner may.
    pub fn transfer_ownership(
        &mut self,
        origin: Origin,
        new_owner: AccountId,
        club_id: ClubId,
    ) -> (r: Result<(), Error>)
        ensures
            (final(self)@, r) == transfer_ownership_outcome(old(self)@, origin, new_owner, club_id),
    {
        match self.take_owned(origin, club_id) {
            Err(e) => Err(e),
            Ok((_, mut club)) => {
                club.owner = new_owner;
                self.put(club_id, club);
                assert(self@.clubs =~= old(self)@.clubs.insert(
                    club_id,
                    with_owner(old(self)@.clubs[club_id], new_owner),
                ));
                self.deposit_event(Event::NewOwner { new_owner, club_id });
                Ok(())
            },
        }
    }

    /// Sets the dues rate of club `club_id`. Only its owner may.
    pub fn set_annual_expense(&mut self, origin: Origin, club_id: ClubId, expense: u32) -> (r:
        Result<(), Error>)
        ensures
            (final(self)@, r) == set_annual_expense_outcome(old(self)@, origin, club_id, expense),
    {
        match self.take_owned(origin, club_id) {
            Err(e) => Err(e),
            Ok((_, mut club)) => {
                club.annual_expenses = expense;
                self.put(club_id, club);
                assert(self@.clubs =~= old(self)@.clubs.insert(
                    club_id,
                    with_rate(old(self)@.clubs[club_id], expense),
                ));
                self.deposit_event(Event::AnnualExpensesSet { club_id });
                Ok(())
            },
        }
    }

    /// The fee transfer that adding a member to club `club_id` asks of the
    /// ledger: the owner pays itself one unit. Fails as `add_member` does
    /// when `origin` is not the club's owner. Changes nothing.
    pub fn add_member_request(&self, origin: Origin, club_id: ClubId) -> (r: Result<Transfer, Error>)
        ensures
            match owner_check(self@.clubs, origin, club_id) {
                Ok(owner) => r == Ok::<Transfer, Error>(fee_transfer(owner)),
                Err(e) => r == Err::<Transfer, Error>(e),
            },
    {
        let who = match ensure_signed(origin) {
            Ok(who) => who,
            Err(e) => return Err(e),
        };
        match self.clubs.get(&club_id) {
            None => Err(Error::ClubDoesNotExist),
            Some(club) => if club.owner != who {
                Err(Error::NotOwner)
            } else {
                Ok(
                    Transfer {
                        from: who,
                        to: who,
                        amount: 1,
                        existence: ExistenceRequirement::AllowDeath,
                    },
                )
            },
        }
    }

    /// Completes adding `member` to club `club_id`, given whether the ledger
    /// made the fee transfer of `add_member_request`: on a settled fee the
    /// member is paid through `now`, else nothing changes.
    pub fn settle_add_member(
        &mut self,
        origin: Origin,
        club_id: ClubId,
        member: AccountId,
        now: Moment,
        transferred: bool,
    ) -> (r: Result<(), Error>)
        ensures
            (final(self)@, r) == add_member_outcome(
                old(self)@,
                origin,
                club_id,
                member,
                now,
                transferred,
            ),
    {
        match self.take_owned(origin, club_id) {
            Err(e) => Err(e),
            Ok((_, mut club)) => {
                if !transferred {
                    self.put(club_id, club);
                    assert(self@.clubs =~= old(self)@.clubs);
                    return Err(Error::InsufficientFunds);
                }
                club.members.insert(member, now);
                self.put(club_id, club);
                assert(self@.clubs =~= old(self)@.clubs.insert(
                    club_id,
                    with_member(old(self)@.clubs[club_id], member, now),
                ));
                self.deposit_event(Event::MemberAdded { member, club_id });
                Ok(())
            },
        }
    }

    /// Adds `member` to club `club_id`, paid through `now`; a member already
    /// there starts over at `now`. Only the owner may, and the owner is
    /// charged a fee of one unit, payable to itself, before the roster
    /// changes: the ledger is asked for exactly the transfer of
    /// `add_member_request`, and its answer is what `settle_add_member`
    /// completes with. Nothing changes, and the ledger is not asked, when the
    /// checks on the origin fail.
    pub fn add_member<L: Ledger>(
        &mut self,
        origin: Origin,
        club_id: ClubId,
        member: AccountId,
        now: Moment,
        ledger: &mut L,
    ) -> (r: Result<(), Error>)
        ensures
            (final(self)@, r) == add_member_outcome(old(self)@, origin, club_id, member, now, true)
                || (final(self)@, r) == add_member_outcome(
                old(self)@,
                origin,
                club_id,
                member,
                now,
                false,
            ),
            owner_check(old(self)@.clubs, origin, club_id) is Err ==> *final(ledger) == *old(
                ledger,
            ),
    {
        let fee = match self.add_member_request(origin, club_id) {
            Ok(t) => t,
            Err(e) => return Err(e),
        };
        let transferred = ledger.transfer(fee.from, fee.to, fee.amount, fee.existence);
        self.settle_add_member(origin, club_id, member, now, transferred)
    }

    /// The dues transfer that a payment of `amount` to club `club_id` asks of
    /// the ledger: the paying member pays the club's rate to its owner. Fails
    /// as `pay_membership_expense` does when a check fails. Changes nothing.
    pub fn payment_request(&self, origin: Origin, club_id: ClubId, amount: u32) -> (r: Result<
        Transfer,
        Error,
    >)
        ensures
            match payment_check(self@.clubs, origin, club_id, amount) {
                Ok(who) => r == Ok::<Transfer, Error>(dues_transfer(self@.clubs[club_id], who)),
                Err(e) => r == Err::<Transfer, Error>(e),
            },
    {
        let who = match ensure_signed(origin) {
            Ok(who) => who,
            Err(e) => return Err(e),
        };
        let club = match self.clubs.get(&club_id) {
            None => return Err(Error::ClubDoesNotExist),
            Some(club) => club,
        };
        if club.paid_through(who).is_none() {
            return Err(Error::ClubDoesNotExist);
        }
        if exceeds_payment_bound(club.annual_expenses, amount) {
            return Err(Error::TooManyTokens);
        }
        Ok(
            Transfer {
                from: who,
                to: club.owner,
                amount: club.annual_expenses as Balance,
                existence: ExistenceRequirement::AllowDeath,
            },
        )
    }

    /// Completes a payment of `amount` to club `club_id`, given whether the
    /// ledger made the dues transfer of `payment_request`: on settled dues
    /// the member's paid-through moment moves on by the whole periods that
    /// `amount` buys, else nothing changes.
    pub fn settle_payment(
        &mut self,
        origin: Origin,
        club_id: ClubId,
        amount: u32,
        transferred: bool,
    ) -> (r: Result<(), Error>)
        ensures
            (final(self)@, r) == pay_membership_expense_outcome(
                old(self)@,
                origin,
                club_id,
                amount,
                transferred,
            ),
    {
        let who = match ensure_signed(origin) {
            Ok(who) => who,
            Err(e) => return Err(e),
        };
        let mut club = match self.clubs.remove(&club_id) {
            None => {
                assert(self.clubs@ =~= old(self).clubs@);
                return Err(Error::ClubDoesNotExist);
            },
            Some(club) => club,
        };
        assert(self@.clubs =~= old(self)@.clubs.remove(club_id));
        let paid_through = match club.paid_through(who) {
            None => {
                self.put(club_id, club);
                assert(self@.clubs =~= old(self)@.clubs);
                return Err(Error::ClubDoesNotExist);
            },
            Some(m) => m,
        };
        let until = match extend_membership(paid_through, club.annual_expenses, amount) {
            None => {
                self.put(club_id, club);
                assert(self@.clubs =~= old(self)@.clubs);
                return Err(Error::TooManyTokens);
            },
            Some(m) => m,
        };
        if !transferred {
            self.put(club_id, club);
            assert(self@.clubs =~= old(self)@.clubs);
            return Err(Error::InsufficientFunds);
        }
        club.members.insert(who, until);
        self.put(club_id, club);
        assert(self@.clubs =~= old(self)@.clubs.insert(
            club_id,
            paid_club(old(self)@.clubs[club_id], who, amount),
        ));
        self.deposit_event(Event::MembershipExpensePaid { member: who, club_id });
        Ok(())
    }

    /// Takes a payment of `amount` from the signer of `origin`, a member of
    /// club `club_id`: the ledger is asked for exactly the transfer of
    /// `payment_request` (the club's rate, from the member to the owner), and
    /// its answer is what `settle_payment` completes with, moving the
    /// member's paid-through moment on by the whole periods that `amount`
    /// buys. Nothing changes, and the ledger is not asked, when a check fails.
    pub fn pay_membership_expense<L: Ledger>(
        &mut self,
        origin: Origin,
        club_id: ClubId,
        amount: u32,
        ledger: &mut L,
    ) -> (r: Result<(), Error>)
        ensures
            (final(self)@, r) == pay_membership_expense_outcome(
                old(self)@,
                origin,
                club_id,
                amount,
                true,
            ) || (final(self)@, r) == pay_membership_expense_outcome(
                old(self)@,
                origin,
                club_id,
                amount,
                false,
            ),
            payment_check(old(self)@.clubs, origin, club_id, amount) is Err ==> *final(ledger)
                == *old(ledger),
    {
        let dues = match self.payment_request(origin, club_id, amount) {
            Ok(t) => t,
            Err(e) => return Err(e),
        };
        let transferred = ledger.transfer(dues.from, dues.to, dues.amount, dues.existence);
        self.settle_payment(origin, club_id, amount, transferred)
    }
}

} // verus!
