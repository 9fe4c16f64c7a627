use vstd::prelude::*;
use crate::address::{Address, key_precedes, lemma_key_order};

verus! {

/// The state flags of an escrow or of one of its milestones.
#[derive(Clone, Copy, Debug, PartialEq, Eq, Structural)]
pub struct Flags {
    pub disputed: bool,
    pub released: bool,
    pub resolved: bool,
    pub approved: bool,
}

impl Flags {
    /// Whether no flag is raised.
    pub open spec fn all_clear(self) -> bool {
        !self.disputed && !self.released && !self.resolved && !self.approved
    }
}

/// One deliverable of an escrow.
pub struct Milestone {
    pub description: String,
    pub status: String,
    pub evidence: String,
    pub amount: i128,
    pub flags: Flags,
}

impl Clone for Milestone {
    fn clone(&self) -> (r: Self)
        ensures
            r == *self,
    {
        Milestone {
            description: self.description.clone(),
            status: self.status.clone(),
            evidence: self.evidence.clone(),
            amount: self.amount,
            flags: self.flags,
        }
    }
}

/// The parties of an escrow.
pub struct Roles {
    pub approver: Address,
    pub service_provider: Address,
    pub platform_address: Address,
    pub release_signer: Address,
    pub dispute_resolver: Address,
    pub receiver: Address,
    pub vault_operator: Address,
}

impl Clone for Roles {
    fn clone(&self) -> (r: Self)
        ensures
            r == *self,
    {
        Roles {
            approver: self.approver.clone(),
            service_provider: self.service_provider.clone(),
            platform_address: self.platform_address.clone(),
            release_signer: self.release_signer.clone(),
            dispute_resolver: self.dispute_resolver.clone(),
            receiver: self.receiver.clone(),
            vault_operator: self.vault_operator.clone(),
        }
    }
}

/// The token an escrow is paid in.
pub struct Trustline {
    pub address: Address,
    pub decimals: u32,
}

impl Clone for Trustline {
    fn clone(&self) -> (r: Self)
        ensures
            r == *self,
    {
        Trustline { address: self.address.clone(), decimals: self.decimals }
    }
}

/// An escrow: who takes part, what it pays, its milestones and its state.
pub struct Escrow {
    pub engagement_id: String,
    pub title: String,
    pub description: String,
    pub roles: Roles,
    pub amount: i128,
    pub platform_fee: u32,
    pub milestones: Vec<Milestone>,
    pub flags: Flags,
    pub trustline: Trustline,
    pub receiver_memo: i128,
    pub record_price_at_release: i128,
}

/// The content of an escrow, with its milestones as a sequence.
#[verifier::ext_equal]
pub struct EscrowView {
    pub engagement_id: String,
    pub title: String,
    pub description: String,
    pub roles: Roles,
    pub amount: i128,
    pub platform_fee: u32,
    pub milestones: Seq<Milestone>,
    pub flags: Flags,
    pub trustline: Trustline,
    pub receiver_memo: i128,
    pub record_price_at_release: i128,
}

impl View for Escrow {
    type V = EscrowView;

    open spec fn view(&self) -> EscrowView {
        EscrowView {
            engagement_id: self.engagement_id,
            title: self.title,
            description: self.description,
            roles: self.roles,
            amount: self.amount,
            platform_fee: self.platform_fee,
            milestones: self.milestones@,
            flags: self.flags,
            trustline: self.trustline,
            receiver_memo: self.receiver_memo,
            record_price_at_release: self.record_price_at_release,
        }
    }
}

impl Clone for Escrow {
    fn clone(&self) -> (r: Self)
        ensures
            r@ == self@,
    {
        let milestones = clone_milestones(&self.milestones);
        Escrow {
            engagement_id: self.engagement_id.clone(),
            title: self.title.clone(),
            description: self.description.clone(),
            roles: self.roles.clone(),
            amount: self.amount,
            platform_fee: self.platform_fee,
            milestones,
            flags: self.flags,
            trustline: self.trustline.clone(),
            receiver_memo: self.receiver_memo,
            record_price_at_release: self.record_price_at_release,
        }
    }
}

/// A copy of `milestones`, element by element.
pub fn clone_milestones(milestones: &Vec<Milestone>) -> (r: Vec<Milestone>)
    ensures
        r@ == milestones@,
{
    let mut r: Vec<Milestone> = Vec::new();
    let mut i: usize = 0;
    while i < milestones.len()
        invariant
            i <= milestones.len(),
            r@ == milestones@.take(i as int),
        decreases milestones.len() - i,
    {
        r.push(milestones[i].clone());
        i = i + 1;
    }
    assert(milestones@.take(milestones.len() as int) =~= milestones@);
    r
}

/// The token balance of an escrow contract, as a batch query reports it.
pub struct AddressBalance {
    pub address: Address,
    pub balance: i128,
    pub trustline_decimals: u32,
}

/// A token transfer out of the escrow contract.
pub struct Payout {
    pub recipient: Address,
    pub amount: i128,
}

/// A share of disputed or remaining funds that a dispute resolver assigns.
pub struct Distribution {
    pub address: Address,
    pub amount: i128,
}

/// Whether no address occurs twice among `entries`.
pub open spec fn distinct_addresses(entries: Seq<Distribution>) -> bool {
    forall|i: int, j: int| 0 <= i < j < entries.len() ==> (#[trigger] entries[i]).address@ != (#[trigger] entries[j]).address@
}

/// The index of the entry of `entries` for `address`, where there is one.
pub open spec fn entry_index(entries: Seq<Distribution>, address: Seq<char>) -> Option<int> {
    if exists|i: int| 0 <= i < entries.len() && (#[trigger] entries[i]).address@ == address {
        Some(choose|i: int| 0 <= i < entries.len() && (#[trigger] entries[i]).address@ == address)
    } else {
        None
    }
}

/// Whether the addresses of `entries` come in the ledger's key order, each
/// before the next.
pub open spec fn sorted_by_key(entries: Seq<Distribution>) -> bool {
    forall|i: int, j: int| 0 <= i < j < entries.len() ==>
        key_precedes((#[trigger] entries[i]).address@, (#[trigger] entries[j]).address@)
}

/// Whether `p` is where `address` goes among `entries`: every entry before
/// `p` comes before `address` in key order, and the entry at `p` does not.
pub open spec fn is_insertion_point(entries: Seq<Distribution>, address: Seq<char>, p: int) -> bool {
    &&& 0 <= p <= entries.len()
    &&& forall|j: int| 0 <= j < p ==> key_precedes((#[trigger] entries[j]).address@, address)
    &&& p < entries.len() ==> !key_precedes(entries[p].address@, address)
}

/// The position at which `address` goes among `entries`.
pub open spec fn insertion_point(entries: Seq<Distribution>, address: Seq<char>) -> int {
    choose|p: int| is_insertion_point(entries, address, p)
}

/// `entries` with `amount` assigned to `address`: the existing entry for
/// that address takes the new amount, or a new entry goes in at its place in
/// key order.
pub open spec fn with_assignment(entries: Seq<Distribution>, address: Address, amount: i128) -> Seq<Distribution> {
    match entry_index(entries, address@) {
        Some(i) => entries.update(i, Distribution { address: entries[i].address, amount }),
        None => entries.insert(insertion_point(entries, address@), Distribution { address, amount }),
    }
}

/// There is only one place for an address among entries.
proof fn lemma_insertion_point_unique(entries: Seq<Distribution>, address: Seq<char>, p: int, q: int)
    requires
        is_insertion_point(entries, address, p),
        is_insertion_point(entries, address, q),
    ensures
        p == q,
{
    if p < q {
        assert(key_precedes(entries[p].address@, address));
    } else if q < p {
        assert(key_precedes(entries[q].address@, address));
    }
}

/// Entries in key order name no address twice.
proof fn lemma_sorted_distinct(entries: Seq<Distribution>)
    requires
        sorted_by_key(entries),
    ensures
        distinct_addresses(entries),
{
    assert forall|i: int, j: int| 0 <= i < j < entries.len() implies
        (#[trigger] entries[i]).address@ != (#[trigger] entries[j]).address@ by {
        lemma_key_order(entries[i].address@, entries[j].address@, entries[j].address@);
    }
}

/// The shares a dispute resolver hands out: at most one per address, in the
/// ledger's key order of their addresses (accounts first, then by key), the
/// order in which the ledger's maps hand out their entries.
pub struct Distributions {
    entries: Vec<Distribution>,
}

impl View for Distributions {
    type V = Seq<Distribution>;

    closed spec fn view(&self) -> Seq<Distribution> {
        self.entries@
    }
}

impl Distributions {
    #[verifier::type_invariant]
    closed spec fn well_formed(self) -> bool {
        sorted_by_key(self.entries@)
    }

    /// No shares yet.
    pub fn new() -> (r: Self)
        ensures
            r@ == Seq::<Distribution>::empty(),
    {
        Distributions { entries: Vec::new() }
    }

    /// Assigns `amount` to `address`, replacing its earlier share if any.
    pub fn insert(&mut self, address: Address, amount: i128)
        ensures
            final(self)@ == with_assignment(old(self)@, address, amount),
    {
        proof { use_type_invariant(&*self); }
        let n = self.entries.len();
        let mut p: usize = 0;
        let mut found_place = false;
        while !found_place && p < n
            invariant
                n == self.entries.len(),
                self.entries@ == old(self).entries@,
                sorted_by_key(self.entries@),
                p <= n,
                forall|j: int| 0 <= j < p ==> key_precedes((#[trigger] self.entries@[j]).address@, address@),
                found_place ==> p < n && !key_precedes(self.entries@[p as int].address@, address@),
            decreases n - p + (if found_place { 0int } else { 1int }),
        {
            if self.entries[p].address.precedes(&address) {
                p = p + 1;
            } else {
                found_place = true;
            }
        }
        let ghost old_entries = self.entries@;
        proof {
            assert(is_insertion_point(old_entries, address@, p as int));
            lemma_insertion_point_unique(old_entries, address@, p as int, insertion_point(old_entries, address@));
            lemma_sorted_distinct(old_entries);
        }
        if p < n && self.entries[p].address.same_as(&address) {
            proof {
                let k = choose|k: int| 0 <= k < old_entries.len() && (#[trigger] old_entries[k]).address@ == address@;
                if k != p as int {
                    if k < p as int {
                        assert(old_entries[k].address@ != old_entries[p as int].address@);
                    } else {
                        assert(old_entries[p as int].address@ != old_entries[k].address@);
                    }
                }
            }
            let kept = self.entries[p].address.clone();
            let mut entries: Vec<Distribution> = Vec::new();
            std::mem::swap(&mut entries, &mut self.entries);
            entries.set(p, Distribution { address: kept, amount });
            assert forall|a: int, b: int| 0 <= a < b < entries@.len() implies
                key_precedes((#[trigger] entries@[a]).address@, (#[trigger] entries@[b]).address@) by {
                assert(entries@[a].address@ == old_entries[a].address@);
                assert(entries@[b].address@ == old_entries[b].address@);
            }
            self.entries = entries;
            return;
        }
        proof {
            assert forall|k: int| 0 <= k < old_entries.len() implies (#[trigger] old_entries[k]).address@ != address@ by {
                lemma_key_order(address@, address@, address@);
                if k > p as int {
                    assert(key_precedes(old_entries[p as int].address@, old_entries[k].address@));
                }
            }
        }
        let mut entries: Vec<Distribution> = Vec::new();
        std::mem::swap(&mut entries, &mut self.entries);
        let new_entry = Distribution { address, amount };
        let ghost d = new_entry;
        entries.insert(p, new_entry);
        proof {
            if (p as int) < old_entries.len() {
                lemma_key_order(d.address@, old_entries[p as int].address@, d.address@);
                assert(key_precedes(d.address@, old_entries[p as int].address@));
            }
        }
        assert forall|a: int, b: int| 0 <= a < b < entries@.len() implies
            key_precedes((#[trigger] entries@[a]).address@, (#[trigger] entries@[b]).address@) by {
            let pi = p as int;
            if b < pi {
                assert(entries@[a] == old_entries[a] && entries@[b] == old_entries[b]);
            } else if b == pi {
                assert(entries@[a] == old_entries[a] && entries@[b] == d);
            } else if a < pi {
                assert(entries@[a] == old_entries[a] && entries@[b] == old_entries[b - 1]);
            } else if a == pi {
                assert(entries@[a] == d && entries@[b] == old_entries[b - 1]);
                if b - 1 > pi {
                    lemma_key_order(d.address@, old_entries[pi].address@, old_entries[b - 1].address@);
                }
            } else {
                assert(entries@[a] == old_entries[a - 1] && entries@[b] == old_entries[b - 1]);
            }
        }
        self.entries = entries;
    }

    /// The shares, in key order of their addresses; no address occurs twice
    /// among them.
    pub fn entries(&self) -> (r: &Vec<Distribution>)
        ensures
            r@ == self@,
            sorted_by_key(r@),
            distinct_addresses(r@),
    {
        proof {
            use_type_invariant(self);
            lemma_sorted_distinct(self.entries@);
        }
        &self.entries
    }
}

} // verus!
