use std::collections::BTreeMap;
use vstd::prelude::*;

use crate::accounting::Moment;

verus! {

/// Identifies a club; supplied by callers, never generated here.
pub type ClubId = u32;

/// Identifies an account.
pub type AccountId = u64;

/// A club: one owner, a dues rate per period, and the moment through which
/// each member has paid.
pub struct Club {
    pub owner: AccountId,
    pub annual_expenses: u32,
    pub members: BTreeMap<AccountId, Moment>,
}

/// A club as plain values.
pub struct ClubView {
    pub owner: AccountId,
    pub annual_expenses: u32,
    pub members: Map<AccountId, Moment>,
}

impl View for Club {
    type V = ClubView;

    open spec fn view(&self) -> ClubView {
        ClubView { owner: self.owner, annual_expenses: self.annual_expenses, members: self.members@ }
    }
}

/// A newly created club: the given owner and rate, no members.
pub open spec fn fresh_club(owner: AccountId, annual_expenses: u32) -> ClubView {
    ClubView { owner, annual_expenses, members: Map::empty() }
}

/// `c` with its owner replaced.
pub open spec fn with_owner(c: ClubView, owner: AccountId) -> ClubView {
    ClubView { owner, ..c }
}

/// `c` with its dues rate replaced.
pub open spec fn with_rate(c: ClubView, annual_expenses: u32) -> ClubView {
    ClubView { annual_expenses, ..c }
}

/// `c` with `member` paid through `until`, whether or not it was a member.
pub open spec fn with_member(c: ClubView, member: AccountId, until: Moment) -> ClubView {
    ClubView { members: c.members.insert(member, until), ..c }
}

impl Club {
    /// A club with the given owner and rate and no members.
    pub fn new(owner: AccountId, annual_expenses: u32) -> (r: Club)
        ensures
            r@ == fresh_club(owner, annual_expenses),
    {
        Club { owner, annual_expenses, members: BTreeMap::new() }
    }

    /// The moment through which `member` has paid, if it is a member.
    pub fn paid_through(&self, member: AccountId) -> (r: Option<Moment>)
        ensures
            r == (if self@.members.contains_key(member) {
                Some(self@.members[member])
            } else {
                None::<Moment>
            }),
    {
        broadcast use vstd::std_specs::btree::group_btree_axioms;

        match self.members.get(&member) {
            Some(m) => Some(*m),
            None => None,
        }
    }
}

} // verus!
