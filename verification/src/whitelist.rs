//! The affiliate whitelist: the accounts that may earn a commission.

use sr_std::prelude::Vec;
use vstd::prelude::*;
use crate::snapshot::copied;
use crate::types::AccountId;

verus! {

/// Whether every element of `s` is smaller than the one after it.
pub open spec fn strictly_increasing(s: Seq<AccountId>) -> bool {
    forall|i: int, j: int| 0 <= i < j < s.len() ==> s[i] < s[j]
}

/// The first position of `v` that holds `account` or something larger.
fn lower_bound(v: &Vec<AccountId>, account: AccountId) -> (k: usize)
    requires
        strictly_increasing(v@),
    ensures
        k <= v.len(),
        forall|i: int| 0 <= i < k ==> v[i] < account,
        forall|i: int| k <= i < v.len() ==> v[i] >= account,
{
    let mut lo: usize = 0;
    let mut hi: usize = v.len();
    while lo < hi
        invariant
            lo <= hi <= v.len(),
            strictly_increasing(v@),
            forall|i: int| 0 <= i < lo ==> v[i] < account,
            forall|i: int| hi <= i < v.len() ==> v[i] >= account,
        decreases hi - lo,
    {
        let mid: usize = lo + (hi - lo) / 2;
        if v[mid] < account {
            lo = mid + 1;
        } else {
            hi = mid;
        }
    }
    lo
}

/// A set of accounts. An account that was never added is not a member.
pub struct AffiliateWhitelist {
    accounts: Vec<AccountId>,
}

impl View for AffiliateWhitelist {
    type V = Set<AccountId>;

    closed spec fn view(&self) -> Set<AccountId> {
        self.accounts@.to_set()
    }
}

impl AffiliateWhitelist {
    #[verifier::type_invariant]
    spec fn sorted(self) -> bool {
        strictly_increasing(self.accounts@)
    }

    /// The whitelist without members.
    pub fn new() -> (whitelist: Self)
        ensures
            whitelist@ == Set::<AccountId>::empty(),
    {
        let whitelist = AffiliateWhitelist { accounts: Vec::new() };
        assert(whitelist.accounts@.to_set() =~= Set::<AccountId>::empty());
        whitelist
    }

    /// The whitelist whose members are the accounts that occur in `accounts`.
    pub fn from_members(accounts: &Vec<AccountId>) -> (whitelist: Self)
        ensures
            whitelist@ == accounts@.to_set(),
    {
        let mut whitelist = AffiliateWhitelist::new();
        let mut i: usize = 0;
        assert(accounts@.take(0).to_set() =~= Set::<AccountId>::empty());
        while i < accounts.len()
            invariant
                i <= accounts.len(),
                whitelist@ == accounts@.take(i as int).to_set(),
            decreases accounts.len() - i,
        {
            whitelist.add(accounts[i]);
            proof {
                let seen = accounts@.take(i as int);
                seen.lemma_push_to_set_commute(accounts@[i as int]);
                assert(accounts@.take(i + 1) =~= seen.push(accounts@[i as int]));
            }
            i += 1;
        }
        assert(accounts@.take(accounts.len() as int) =~= accounts@);
        whitelist
    }

    /// The members, smallest first.
    pub fn members(&self) -> (members: Vec<AccountId>)
        ensures
            members@.to_set() == self@,
            strictly_increasing(members@),
    {
        proof {
            use_type_invariant(self);
        }
        copied(&self.accounts)
    }

    /// Whether `affiliate` is a member.
    pub fn is_allowed(&self, affiliate: AccountId) -> (allowed: bool)
        ensures
            allowed == self@.contains(affiliate),
    {
        proof {
            use_type_invariant(self);
        }
        let k: usize = lower_bound(&self.accounts, affiliate);
        k < self.accounts.len() && self.accounts[k] == affiliate
    }

    /// Makes `affiliate` a member; nothing changes if it already is one.
    pub fn add(&mut self, affiliate: AccountId)
        ensures
            final(self)@ == old(self)@.insert(affiliate),
    {
        proof {
            use_type_invariant(&*self);
        }
        let k: usize = lower_bound(&self.accounts, affiliate);
        if k < self.accounts.len() && self.accounts[k] == affiliate {
            assert(self@.insert(affiliate) =~= self@);
        } else {
            let ghost before = self.accounts@;
            let mut accounts: Vec<AccountId> = Vec::new();
            std::mem::swap(&mut accounts, &mut self.accounts);
            accounts.insert(k, affiliate);
            self.accounts = accounts;
            assert(self.accounts@.to_set() =~= before.to_set().insert(affiliate)) by {
                assert forall|a: AccountId| self.accounts@.contains(a) implies before.contains(a)
                    || a == affiliate by {
                    let i = choose|i: int| 0 <= i < self.accounts@.len() && self.accounts@[i] == a;
                    if i < k {
                        assert(before[i] == a);
                    } else if i > k {
                        assert(before[i - 1] == a);
                    }
                }
                assert forall|a: AccountId| before.contains(a) implies self.accounts@.contains(
                    a,
                ) by {
                    let i = choose|i: int| 0 <= i < before.len() && before[i] == a;
                    if i < k {
                        assert(self.accounts@[i] == a);
                    } else {
                        assert(self.accounts@[i + 1] == a);
                    }
                }
                assert(self.accounts@[k as int] == affiliate);
            }
        }
    }

    /// Ends the membership of `affiliate`; nothing changes if it is no member.
    pub fn remove(&mut self, affiliate: AccountId)
        ensures
            final(self)@ == old(self)@.remove(affiliate),
    {
        proof {
            use_type_invariant(&*self);
        }
        let k: usize = lower_bound(&self.accounts, affiliate);
        if k < self.accounts.len() && self.accounts[k] == affiliate {
            let ghost before = self.accounts@;
            let mut accounts: Vec<AccountId> = Vec::new();
            std::mem::swap(&mut accounts, &mut self.accounts);
            accounts.remove(k);
            self.accounts = accounts;
            assert(self.accounts@.to_set() =~= before.to_set().remove(affiliate)) by {
                assert forall|a: AccountId| self.accounts@.contains(a) implies before.contains(a)
                    && a != affiliate by {
                    let i = choose|i: int| 0 <= i < self.accounts@.len() && self.accounts@[i] == a;
                    if i < k {
                        assert(before[i] == a);
                    } else {
                        assert(before[i + 1] == a);
                    }
                }
                assert forall|a: AccountId| before.contains(a) && a != affiliate implies
                    self.accounts@.contains(a) by {
                    let i = choose|i: int| 0 <= i < before.len() && before[i] == a;
                    if i < k {
                        assert(self.accounts@[i] == a);
                    } else {
                        assert(self.accounts@[i - 1] == a);
                    }
                }
            }
        } else {
            assert(self@.remove(affiliate) =~= self@);
        }
    }
}

} // verus!
