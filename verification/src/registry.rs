//! The listing registry: the listings on offer and the sequence of their
//! identifiers.

use sr_std::prelude::Vec;
use vstd::prelude::*;
use crate::auth::authorize;
use crate::snapshot::copied;
use crate::types::{AccountId, Amount, Error, Listing, ListingId};

verus! {

/// What the registry holds: the listings on offer, by identifier, and how
/// many identifiers have been handed out so far.
pub struct RegistryState {
    pub listings: Map<ListingId, Listing>,
    pub issued: nat,
}

impl RegistryState {
    /// The registry before the first listing.
    pub open spec fn empty() -> Self {
        RegistryState { listings: Map::empty(), issued: 0 }
    }

    /// Every listing is stored under its own identifier, and that identifier
    /// has been handed out.
    pub open spec fn wf(self) -> bool {
        &&& self.issued <= u64::MAX
        &&& forall|id: ListingId| #[trigger]
            self.listings.contains_key(id) ==> self.listings[id].id == id && 1 <= id
                <= self.issued
    }

    /// The listing stored under `id`, if there is one.
    pub open spec fn get(self, id: ListingId) -> Option<Listing> {
        if self.listings.contains_key(id) {
            Some(self.listings[id])
        } else {
            None
        }
    }

    /// The identifier that the next listing gets.
    pub open spec fn next_id(self) -> ListingId {
        (self.issued + 1) as ListingId
    }

    /// The registry after `seller` has posted a listing.
    pub open spec fn create(
        self,
        seller: AccountId,
        deposit: Amount,
        deposit_manager: AccountId,
    ) -> Self {
        let id = self.next_id();
        RegistryState {
            listings: self.listings.insert(id, Listing { id, seller, deposit, deposit_manager }),
            issued: self.issued + 1,
        }
    }

    /// Whether `amount` can be added to the deposit of listing `id` within
    /// the range of `Amount`. It can where there is no such listing, since
    /// nothing is added then.
    pub open spec fn deposit_fits(self, id: ListingId, amount: Amount) -> bool {
        self.listings.contains_key(id) ==> self.listings[id].deposit + amount <= Amount::MAX
    }

    /// The registry after `amount` has been added to the deposit of listing
    /// `id`; the same registry where there is no such listing.
    pub open spec fn add_deposit(self, id: ListingId, amount: Amount) -> Self {
        if self.listings.contains_key(id) {
            let listing = self.listings[id];
            RegistryState {
                listings: self.listings.insert(
                    id,
                    Listing { deposit: (listing.deposit + amount) as Amount, ..listing },
                ),
                ..self
            }
        } else {
            self
        }
    }

    /// What `caller` gets for asking to withdraw listing `id`: the released
    /// deposit if `caller` manages it, else the reason for the refusal.
    pub open spec fn withdrawal(self, caller: AccountId, id: ListingId) -> Result<Amount, Error> {
        if !self.listings.contains_key(id) {
            Err(Error::NotFound)
        } else if caller != self.listings[id].deposit_manager {
            Err(Error::Unauthorized)
        } else {
            Ok(self.listings[id].deposit)
        }
    }

    /// The registry after `caller` has asked to withdraw listing `id`: without
    /// that listing if the request was granted, unchanged if not.
    pub open spec fn withdraw(self, caller: AccountId, id: ListingId) -> Self {
        if self.withdrawal(caller, id) is Ok {
            RegistryState { listings: self.listings.remove(id), ..self }
        } else {
            self
        }
    }
}

/// Whether the listings of `items` stand in the order of their identifiers,
/// none occurring twice.
pub open spec fn ids_increasing(items: Seq<Listing>) -> bool {
    forall|i: int, j: int| 0 <= i < j < items.len() ==> items[i].id < items[j].id
}

/// Whether some listing of `items` has the identifier `id`.
pub open spec fn holds(items: Seq<Listing>, id: ListingId) -> bool {
    exists|i: int| 0 <= i < items.len() && #[trigger] items[i].id == id
}

/// The position in `items` of the listing with identifier `id`.
pub open spec fn position(items: Seq<Listing>, id: ListingId) -> int {
    choose|i: int| 0 <= i < items.len() && #[trigger] items[i].id == id
}

/// The listings of `items`, by identifier.
pub open spec fn table_of(items: Seq<Listing>) -> Map<ListingId, Listing> {
    Map::new(|id: ListingId| holds(items, id), |id: ListingId| items[position(items, id)])
}

/// Whether `items` can be the listings of a registry that has handed out
/// `issued` identifiers: they stand in the order of their identifiers, and
/// each identifier is one of the first `issued`.
pub open spec fn valid_listings(items: Seq<Listing>, issued: u64) -> bool {
    &&& ids_increasing(items)
    &&& forall|i: int| 0 <= i < items.len() ==> 1 <= #[trigger] items[i].id <= issued
}

/// A listing is found in the table under its identifier.
proof fn lemma_table_at(items: Seq<Listing>, i: int)
    requires
        ids_increasing(items),
        0 <= i < items.len(),
    ensures
        table_of(items).contains_key(items[i].id),
        table_of(items)[items[i].id] == items[i],
{
    let id = items[i].id;
    assert(holds(items, id));
    let p = position(items, id);
    assert(p == i) by {
        if p < i {
            assert(items[p].id < items[i].id);
        } else if i < p {
            assert(items[i].id < items[p].id);
        }
    }
}

/// An identifier that is not at its place in the order is not in the table.
proof fn lemma_table_miss(items: Seq<Listing>, id: ListingId, k: int)
    requires
        0 <= k <= items.len(),
        forall|i: int| 0 <= i < k ==> items[i].id < id,
        forall|i: int| k <= i < items.len() ==> items[i].id > id,
    ensures
        !table_of(items).contains_key(id),
{
    if holds(items, id) {
        let p = position(items, id);
        if p < k {
            assert(items[p].id < id);
        } else {
            assert(items[p].id > id);
        }
    }
}

/// A listing appended with a larger identifier is one more entry of the table.
proof fn lemma_table_push(items: Seq<Listing>, listing: Listing)
    requires
        ids_increasing(items),
        forall|i: int| 0 <= i < items.len() ==> items[i].id < listing.id,
    ensures
        ids_increasing(items.push(listing)),
        table_of(items.push(listing)) == table_of(items).insert(listing.id, listing),
{
    let after = items.push(listing);
    assert(ids_increasing(after));
    assert forall|id: ListingId| #[trigger]
        table_of(after).contains_key(id) <==> table_of(items).insert(
            listing.id,
            listing,
        ).contains_key(id) by {
        if holds(after, id) {
            let p = position(after, id);
            if p < items.len() {
                assert(items[p].id == id);
            }
        }
        if holds(items, id) {
            let p = position(items, id);
            assert(after[p].id == id);
        }
        if id == listing.id {
            assert(after[items.len() as int].id == id);
        }
    }
    assert forall|id: ListingId| #[trigger] table_of(after).contains_key(id) implies table_of(
        after,
    )[id] == table_of(items).insert(listing.id, listing)[id] by {
        let p = position(after, id);
        lemma_table_at(after, p);
        if p < items.len() {
            assert(items[p] == after[p]);
            lemma_table_at(items, p);
        }
    }
    assert(table_of(after) =~= table_of(items).insert(listing.id, listing));
}

/// A listing replaced by one with the same identifier replaces its entry.
proof fn lemma_table_update(items: Seq<Listing>, k: int, listing: Listing)
    requires
        ids_increasing(items),
        0 <= k < items.len(),
        items[k].id == listing.id,
    ensures
        ids_increasing(items.update(k, listing)),
        table_of(items.update(k, listing)) == table_of(items).insert(listing.id, listing),
{
    let after = items.update(k, listing);
    assert forall|i: int, j: int| 0 <= i < j < after.len() implies after[i].id < after[j].id by {
        assert(after[i].id == items[i].id);
        assert(after[j].id == items[j].id);
    }
    assert forall|id: ListingId| #[trigger]
        table_of(after).contains_key(id) <==> table_of(items).insert(
            listing.id,
            listing,
        ).contains_key(id) by {
        if holds(after, id) {
            let p = position(after, id);
            assert(items[p].id == id);
        }
        if holds(items, id) {
            let p = position(items, id);
            assert(after[p].id == id);
        }
        if id == listing.id {
            assert(after[k].id == id);
        }
    }
    assert forall|id: ListingId| #[trigger] table_of(after).contains_key(id) implies table_of(
        after,
    )[id] == table_of(items).insert(listing.id, listing)[id] by {
        let p = position(after, id);
        lemma_table_at(after, p);
        if p != k {
            assert(items[p] == after[p]);
            lemma_table_at(items, p);
        }
    }
    assert(table_of(after) =~= table_of(items).insert(listing.id, listing));
}

/// A listing taken out takes its entry out of the table.
proof fn lemma_table_remove(items: Seq<Listing>, k: int)
    requires
        ids_increasing(items),
        0 <= k < items.len(),
    ensures
        ids_increasing(items.remove(k)),
        table_of(items.remove(k)) == table_of(items).remove(items[k].id),
{
    let after = items.remove(k);
    let gone = items[k].id;
    assert forall|i: int, j: int| 0 <= i < j < after.len() implies after[i].id < after[j].id by {
        let i0 = if i < k { i } else { i + 1 };
        let j0 = if j < k { j } else { j + 1 };
        assert(after[i] == items[i0]);
        assert(after[j] == items[j0]);
    }
    assert forall|id: ListingId| #[trigger]
        table_of(after).contains_key(id) <==> table_of(items).remove(gone).contains_key(id) by {
        if holds(after, id) {
            let p = position(after, id);
            let q = if p < k { p } else { p + 1 };
            assert(items[q] == after[p]);
            assert(items[q].id == id);
            if q < k {
                assert(items[q].id < items[k].id);
            } else {
                assert(items[k].id < items[q].id);
            }
        }
        if holds(items, id) && id != gone {
            let p = position(items, id);
            let r = if p < k { p } else { p - 1 };
            assert(after[r] == items[p]);
            assert(after[r].id == id);
        }
    }
    assert forall|id: ListingId| #[trigger] table_of(after).contains_key(id) implies table_of(
        after,
    )[id] == table_of(items).remove(gone)[id] by {
        let p = position(after, id);
        lemma_table_at(after, p);
        let q = if p < k { p } else { p + 1 };
        assert(items[q] == after[p]);
        lemma_table_at(items, q);
    }
    assert(table_of(after) =~= table_of(items).remove(gone));
}

/// The place of `id` among `items`: the first position that holds `id` or a
/// larger identifier.
fn lower_bound(items: &Vec<Listing>, id: ListingId) -> (k: usize)
    requires
        ids_increasing(items@),
    ensures
        k <= items.len(),
        forall|i: int| 0 <= i < k ==> items[i].id < id,
        forall|i: int| k <= i < items.len() ==> items[i].id >= id,
{
    let mut lo: usize = 0;
    let mut hi: usize = items.len();
    while lo < hi
        invariant
            lo <= hi <= items.len(),
            ids_increasing(items@),
            forall|i: int| 0 <= i < lo ==> items[i].id < id,
            forall|i: int| hi <= i < items.len() ==> items[i].id >= id,
        decreases hi - lo,
    {
        let mid: usize = lo + (hi - lo) / 2;
        if items[mid].id < id {
            lo = mid + 1;
        } else {
            hi = mid;
        }
    }
    lo
}

/// The listings on offer, and the counter that numbers them. Identifiers
/// start at 1, grow by one with each listing, and are never handed out twice.
pub struct ListingRegistry {
    items: Vec<Listing>,
    issued: u64,
}

impl View for ListingRegistry {
    type V = RegistryState;

    closed spec fn view(&self) -> RegistryState {
        RegistryState { listings: table_of(self.items@), issued: self.issued as nat }
    }
}

impl ListingRegistry {
    #[verifier::type_invariant]
    pub(crate) closed spec fn inv(self) -> bool {
        &&& ids_increasing(self.items@)
        &&& forall|i: int| 0 <= i < self.items@.len() ==> 1 <= #[trigger] self.items@[i].id
            <= self.issued
    }

    /// The invariant, told of the view.
    pub(crate) proof fn lemma_view_wf(self)
        requires
            self.inv(),
        ensures
            self@.wf(),
    {
        assert forall|id: ListingId| #[trigger] self@.listings.contains_key(id) implies self@.listings[id].id
            == id && 1 <= id <= self@.issued by {
            let p = position(self.items@, id);
            lemma_table_at(self.items@, p);
        }
    }

    /// The registry before the first listing.
    pub fn new() -> (registry: Self)
        ensures
            registry@ == RegistryState::empty(),
    {
        let registry = ListingRegistry { items: Vec::new(), issued: 0 };
        assert(registry@.listings =~= Map::<ListingId, Listing>::empty());
        registry
    }

    /// The registry that holds `listings` and has handed out `issued`
    /// identifiers, if there can be one.
    pub fn from_parts(listings: &Vec<Listing>, issued: u64) -> (registry: Option<Self>)
        ensures
            registry is Some <==> valid_listings(listings@, issued),
            registry matches Some(r) ==> r@ == (RegistryState {
                listings: table_of(listings@),
                issued: issued as nat,
            }),
    {
        let mut i: usize = 0;
        while i < listings.len()
            invariant
                i <= listings.len(),
                valid_listings(listings@.take(i as int), issued),
            decreases listings.len() - i,
        {
            let id: ListingId = listings[i].id;
            if id == 0 || id > issued {
                return None;
            }
            if i > 0 && listings[i - 1].id >= id {
                return None;
            }
            proof {
                let seen = listings@.take(i + 1);
                assert forall|a: int, b: int| 0 <= a < b < seen.len() implies seen[a].id
                    < seen[b].id by {
                    if b < i {
                        assert(listings@.take(i as int)[a].id < listings@.take(i as int)[b].id);
                    } else if a < i - 1 {
                        assert(listings@.take(i as int)[a].id < listings@.take(i as int)[i - 1].id);
                    }
                }
                assert forall|a: int| 0 <= a < seen.len() implies 1 <= #[trigger] seen[a].id
                    <= issued by {
                    if a < i {
                        assert(listings@.take(i as int)[a].id == seen[a].id);
                    }
                }
            }
            i += 1;
        }
        assert(listings@.take(listings.len() as int) =~= listings@);
        Some(ListingRegistry { items: copied(listings), issued })
    }

    /// The listings on offer, in the order of their identifiers.
    pub fn listings(&self) -> (listings: Vec<Listing>)
        ensures
            valid_listings(listings@, self@.issued as u64),
            table_of(listings@) == self@.listings,
            self@.wf(),
    {
        proof {
            use_type_invariant(self);
            self.lemma_view_wf();
        }
        copied(&self.items)
    }

    /// How many identifiers have been handed out.
    pub fn issued(&self) -> (count: u64)
        ensures
            count == self@.issued,
            self@.wf(),
    {
        proof {
            use_type_invariant(self);
            self.lemma_view_wf();
        }
        self.issued
    }

    /// The listing stored under `id`, if there is one.
    pub fn get(&self, id: ListingId) -> (found: Option<Listing>)
        ensures
            found == self@.get(id),
            self@.wf(),
    {
        proof {
            use_type_invariant(self);
            self.lemma_view_wf();
        }
        let k: usize = lower_bound(&self.items, id);
        if k < self.items.len() && self.items[k].id == id {
            proof {
                lemma_table_at(self.items@, k as int);
            }
            Some(self.items[k])
        } else {
            proof {
                lemma_table_miss(self.items@, id, k as int);
            }
            None
        }
    }

    /// Stores a new listing of `seller` under the next identifier, and
    /// returns that identifier. Asks that the counter has not reached the end
    /// of its range.
    pub fn create(&mut self, seller: AccountId, deposit: Amount, deposit_manager: AccountId) -> (id:
        ListingId)
        requires
            old(self)@.issued < u64::MAX,
        ensures
            id == old(self)@.next_id(),
            final(self)@ == old(self)@.create(seller, deposit, deposit_manager),
            final(self)@.wf(),
    {
        proof {
            use_type_invariant(&*self);
        }
        let id: ListingId = self.issued + 1;
        let listing = Listing { id, seller, deposit, deposit_manager };
        let ghost before = self.items@;
        let mut items: Vec<Listing> = Vec::new();
        std::mem::swap(&mut items, &mut self.items);
        items.push(listing);
        proof {
            lemma_table_push(before, listing);
        }
        *self = ListingRegistry { items, issued: id };
        proof {
            self.lemma_view_wf();
        }
        id
    }

    /// Adds `amount` to the deposit of listing `id`. Nothing changes where
    /// there is no such listing. Asks that the raised deposit stays within
    /// the range of `Amount`.
    pub fn add_deposit(&mut self, id: ListingId, amount: Amount)
        requires
            old(self)@.deposit_fits(id, amount),
        ensures
            final(self)@ == old(self)@.add_deposit(id, amount),
            final(self)@.wf(),
    {
        proof {
            use_type_invariant(&*self);
            self.lemma_view_wf();
        }
        let k: usize = lower_bound(&self.items, id);
        if k < self.items.len() && self.items[k].id == id {
            let ghost before = self.items@;
            let listing = self.items[k];
            proof {
                lemma_table_at(before, k as int);
            }
            let raised = Listing {
                id: listing.id,
                seller: listing.seller,
                deposit: listing.deposit + amount,
                deposit_manager: listing.deposit_manager,
            };
            let mut items: Vec<Listing> = Vec::new();
            std::mem::swap(&mut items, &mut self.items);
            items.set(k, raised);
            proof {
                lemma_table_update(before, k as int, raised);
            }
            self.items = items;
            proof {
                self.lemma_view_wf();
            }
        } else {
            proof {
                lemma_table_miss(self.items@, id, k as int);
            }
        }
    }

    /// Withdraws listing `id` on behalf of `caller` and returns the deposit
    /// that is released. Refused with `NotFound` where there is no such
    /// listing, and with `Unauthorized` where `caller` is not its deposit
    /// manager. A withdrawn listing is gone; its identifier is not used
    /// again.
    pub fn withdraw(&mut self, caller: AccountId, id: ListingId) -> (released: Result<
        Amount,
        Error,
    >)
        ensures
            released == old(self)@.withdrawal(caller, id),
            final(self)@ == old(self)@.withdraw(caller, id),
            final(self)@.wf(),
    {
        proof {
            use_type_invariant(&*self);
            self.lemma_view_wf();
        }
        let k: usize = lower_bound(&self.items, id);
        if k >= self.items.len() || self.items[k].id != id {
            proof {
                lemma_table_miss(self.items@, id, k as int);
            }
            return Err(Error::NotFound);
        }
        let ghost before = self.items@;
        proof {
            lemma_table_at(before, k as int);
        }
        let listing = self.items[k];
        if authorize(caller, listing.deposit_manager).is_err() {
            return Err(Error::Unauthorized);
        }
        let mut items: Vec<Listing> = Vec::new();
        std::mem::swap(&mut items, &mut self.items);
        items.remove(k);
        proof {
            lemma_table_remove(before, k as int);
        }
        self.items = items;
        proof {
            self.lemma_view_wf();
        }
        Ok(listing.deposit)
    }
}

} // verus!
