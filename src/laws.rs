use vstd::prelude::*;

use crate::accounting::{payment_bound, Moment, SECOND_IN_YEAR};
use crate::club::{AccountId, ClubId, ClubView};
use crate::pallet::{
    add_member_outcome, create_club_outcome, owner_check, pay_membership_expense_outcome,
    payment_check, set_annual_expense_outcome, transfer_ownership_outcome, Error, Event, Origin,
    PalletView,
};

verus! {

/// Under an identifier where no club was created, every operation gated on
/// the club's owner or members rejects a signed caller with
/// `ClubDoesNotExist`, changes nothing, and leaves the ledger alone.
pub proof fn lemma_missing_club_rejected(
    s: PalletView,
    caller: AccountId,
    club_id: ClubId,
    new_owner: AccountId,
    expense: u32,
    member: AccountId,
    now: Moment,
    amount: u32,
    transferred: bool,
)
    requires
        !s.clubs.contains_key(club_id),
    ensures
        owner_check(s.clubs, Origin::Signed(caller), club_id) == Err::<AccountId, Error>(
            Error::ClubDoesNotExist,
        ),
        payment_check(s.clubs, Origin::Signed(caller), club_id, amount) == Err::<AccountId, Error>(
            Error::ClubDoesNotExist,
        ),
        transfer_ownership_outcome(s, Origin::Signed(caller), new_owner, club_id) == (
            s,
            Err::<(), Error>(Error::ClubDoesNotExist),
        ),
        set_annual_expense_outcome(s, Origin::Signed(caller), club_id, expense) == (
            s,
            Err::<(), Error>(Error::ClubDoesNotExist),
        ),
        add_member_outcome(s, Origin::Signed(caller), club_id, member, now, transferred) == (
            s,
            Err::<(), Error>(Error::ClubDoesNotExist),
        ),
        pay_membership_expense_outcome(s, Origin::Signed(caller), club_id, amount, transferred)
            == (s, Err::<(), Error>(Error::ClubDoesNotExist)),
{
}

/// A club just created has the given owner and rate and no members.
pub proof fn lemma_created_club_is_fresh(
    s: PalletView,
    owner: AccountId,
    club_id: ClubId,
    annual_expenses: u32,
)
    ensures
        ({
            let (t, r) = create_club_outcome(s, Origin::Root, owner, club_id, annual_expenses);
            &&& r is Ok
            &&& t.clubs.contains_key(club_id)
            &&& t.clubs[club_id].owner == owner
            &&& t.clubs[club_id].annual_expenses == annual_expenses
            &&& t.clubs[club_id].members.is_empty()
            &&& t.events.last() == Event::ClubCreated { club_id }
        }),
{
}

/// A signed caller that does not own an existing club cannot hand it on: the
/// transfer is rejected with `NotOwner` and the owner stays.
pub proof fn lemma_non_owner_cannot_transfer(
    s: PalletView,
    caller: AccountId,
    new_owner: AccountId,
    club_id: ClubId,
)
    requires
        s.clubs.contains_key(club_id),
        s.clubs[club_id].owner != caller,
    ensures
        transfer_ownership_outcome(s, Origin::Signed(caller), new_owner, club_id) == (
            s,
            Err::<(), Error>(Error::NotOwner),
        ),
{
}

/// Setting a rate succeeds only for the club's owner, and then changes the
/// club's rate and nothing else.
pub proof fn lemma_rate_change_owner_only(
    s: PalletView,
    origin: Origin,
    club_id: ClubId,
    expense: u32,
)
    ensures
        ({
            let (t, r) = set_annual_expense_outcome(s, origin, club_id, expense);
            r is Ok ==> {
                &&& s.clubs.contains_key(club_id)
                &&& origin == Origin::Signed(s.clubs[club_id].owner)
                &&& t.clubs == s.clubs.insert(
                    club_id,
                    ClubView {
                        owner: s.clubs[club_id].owner,
                        annual_expenses: expense,
                        members: s.clubs[club_id].members,
                    },
                )
            }
        }),
        ({
            let (t, r) = set_annual_expense_outcome(s, origin, club_id, expense);
            r is Err ==> t == s
        }),
{
}

/// A payment above the rate's bound never changes anything; from a member
/// it is rejected with `TooManyTokens`.
pub proof fn lemma_payment_over_bound_rejected(
    s: PalletView,
    origin: Origin,
    club_id: ClubId,
    amount: u32,
    transferred: bool,
)
    requires
        s.clubs.contains_key(club_id),
        amount as int > payment_bound(s.clubs[club_id].annual_expenses),
    ensures
        pay_membership_expense_outcome(s, origin, club_id, amount, transferred).0 == s,
        pay_membership_expense_outcome(s, origin, club_id, amount, transferred).1 is Err,
        (origin matches Origin::Signed(who) && s.clubs[club_id].members.contains_key(who))
            ==> pay_membership_expense_outcome(s, origin, club_id, amount, transferred) == (
            s,
            Err::<(), Error>(Error::TooManyTokens),
        ),
{
}

/// A signed caller that is not a member of the club is rejected with
/// `ClubDoesNotExist` before the ledger is asked, and nothing changes.
pub proof fn lemma_non_member_payment_rejected(
    s: PalletView,
    caller: AccountId,
    club_id: ClubId,
    amount: u32,
    transferred: bool,
)
    requires
        !(s.clubs.contains_key(club_id) && s.clubs[club_id].members.contains_key(caller)),
    ensures
        payment_check(s.clubs, Origin::Signed(caller), club_id, amount) == Err::<AccountId, Error>(
            Error::ClubDoesNotExist,
        ),
        pay_membership_expense_outcome(s, Origin::Signed(caller), club_id, amount, transferred)
            == (s, Err::<(), Error>(Error::ClubDoesNotExist)),
{
}

/// A member added at `now` who then pays `amount`, both transfers settled,
/// is paid through `now` plus the whole periods that `amount` buys: one
/// period when `amount` is the rate.
pub proof fn lemma_add_then_pay(
    s: PalletView,
    club_id: ClubId,
    member: AccountId,
    now: Moment,
    amount: u32,
)
    requires
        s.clubs.contains_key(club_id),
        s.clubs[club_id].annual_expenses > 0,
        amount as int <= payment_bound(s.clubs[club_id].annual_expenses),
        now as int + (amount as int / s.clubs[club_id].annual_expenses as int)
            * SECOND_IN_YEAR as int <= u64::MAX as int,
    ensures
        ({
            let rate = s.clubs[club_id].annual_expenses;
            let owner = Origin::Signed(s.clubs[club_id].owner);
            let (s1, r1) = add_member_outcome(s, owner, club_id, member, now, true);
            let (s2, r2) = pay_membership_expense_outcome(
                s1,
                Origin::Signed(member),
                club_id,
                amount,
                true,
            );
            &&& r1 is Ok
            &&& r2 is Ok
            &&& s2.clubs[club_id].members[member] as int == now as int + (amount as int
                / rate as int) * SECOND_IN_YEAR as int
            &&& amount == rate ==> s2.clubs[club_id].members[member] as int == now as int
                + SECOND_IN_YEAR as int
            &&& s2.events.last() == Event::MembershipExpensePaid { member, club_id }
        }),
{
    let rate = s.clubs[club_id].annual_expenses;
    let owner = Origin::Signed(s.clubs[club_id].owner);
    let (s1, r1) = add_member_outcome(s, owner, club_id, member, now, true);
    assert(s1.clubs[club_id].annual_expenses == rate);
    assert(s1.clubs[club_id].members[member] == now);
    if amount == rate {
        assert(amount as int / rate as int == 1) by (nonlinear_arith)
            requires
                amount == rate,
                rate > 0,
        ;
    }
}

/// A payment, whatever its outcome, keeps every member of every club, and
/// moves no member's paid-through moment back.
pub proof fn lemma_payment_never_shortens(
    s: PalletView,
    origin: Origin,
    club_id: ClubId,
    amount: u32,
    transferred: bool,
    id: ClubId,
    member: AccountId,
)
    requires
        s.clubs.contains_key(id),
        s.clubs[id].members.contains_key(member),
    ensures
        ({
            let t = pay_membership_expense_outcome(s, origin, club_id, amount, transferred).0;
            &&& t.clubs.contains_key(id)
            &&& t.clubs[id].members.contains_key(member)
            &&& t.clubs[id].members[member] >= s.clubs[id].members[member]
        }),
{
}

} // verus!
