//! Laws of the repository, stated over the same spec functions the
//! operations' contracts use and proved once for every store.

use vstd::prelude::*;
use crate::models::{Contract, ContractWithDetails, FrameworkAgreement, Party};
use crate::seed::seeded;
use crate::store::{capped, Store};

verus! {

/// Law: in a well-formed store, party identifiers are pairwise distinct.
pub proof fn lemma_party_ids_unique(s: Store)
    requires
        s.wf(),
    ensures
        forall|i: int, j: int|
            0 <= i < j < s.parties@.len() ==> (#[trigger] s.parties@[i]).id != (
            #[trigger] s.parties@[j]).id,
{
}

/// Law: the identifier a party insert assigns is distinct from every
/// identifier already in the store, and a listing that covers the whole
/// table includes the new row, with exactly the name it was created with.
/// The premises are what `create_party` and `list_parties` ensure.
pub proof fn lemma_created_party_unique_and_listed(
    pre: Store,
    post: Store,
    p: Party,
    listing: Seq<Party>,
    limit: int,
)
    requires
        pre.wf(),
        post.wf(),
        post.parties@ == pre.parties@.push(p),
        p.id as int == pre.parties@.len() + 1,
        limit >= post.parties@.len(),
        listing.len() == capped(post.parties@.len() as int, limit),
        forall|i: int| 0 <= i < listing.len() ==> listing[i] == post.parties@[i],
    ensures
        forall|i: int| 0 <= i < pre.parties@.len() ==> (#[trigger] pre.parties@[i]).id != p.id,
        exists|i: int| 0 <= i < listing.len() && #[trigger] listing[i] == p,
{
    assert(listing[pre.parties@.len() as int] == p);
}

/// Law: after a successful contract creation from entities that are rows
/// of the store, the new contract resolves, and its composite row is
/// exactly those entities — even when buyer and seller are the same party.
/// The premises are what `create_contract_for_fa` ensures when the related
/// records were themselves returned by the create operations.
pub proof fn lemma_created_contract_resolves(
    pre: Store,
    post: Store,
    fa: FrameworkAgreement,
    buyer: Party,
    seller: Party,
    c: Contract,
)
    requires
        post.wf(),
        post.parties@ == pre.parties@,
        post.framework_agreements@ == pre.framework_agreements@,
        post.contracts@ == pre.contracts@.push(c),
        1 <= fa.id as int <= pre.framework_agreements@.len(),
        pre.framework_agreements@[fa.id - 1] == fa,
        1 <= buyer.id as int <= pre.parties@.len(),
        pre.parties@[buyer.id - 1] == buyer,
        1 <= seller.id as int <= pre.parties@.len(),
        pre.parties@[seller.id - 1] == seller,
        c.framework_agreement_id == fa.id,
        c.buyer_id == buyer.id,
        c.seller_id == seller.id,
    ensures
        post.contract_resolvable(c),
        post.resolved_row(c) == (ContractWithDetails {
            contract: c,
            framework_agreement: fa,
            buyer,
            seller,
        }),
{
}

/// Law: one seeding run on an empty store yields exactly two parties, two
/// framework agreements, and two contracts, and each seeded contract
/// resolves to the seeded framework agreement, buyer, and seller.
pub proof fn lemma_seed_on_empty_resolves(s0: Store, s1: Store, limit: int)
    requires
        seeded(s0, s1),
        s1.wf(),
        s0.parties@.len() == 0,
        s0.framework_agreements@.len() == 0,
        s0.contracts@.len() == 0,
        limit >= 2,
    ensures
        capped(s1.parties@.len() as int, limit) == 2,
        capped(s1.framework_agreements@.len() as int, limit) == 2,
        capped(s1.contracts@.len() as int, limit) == 2,
        forall|j: int| 0 <= j < 2 ==> s1.contract_resolvable(#[trigger] s1.contracts@[j]),
        s1.resolved_row(s1.contracts@[0]) == (ContractWithDetails {
            contract: s1.contracts@[0],
            framework_agreement: s1.framework_agreements@[0],
            buyer: s1.parties@[0],
            seller: s1.parties@[1],
        }),
        s1.resolved_row(s1.contracts@[1]) == (ContractWithDetails {
            contract: s1.contracts@[1],
            framework_agreement: s1.framework_agreements@[1],
            buyer: s1.parties@[0],
            seller: s1.parties@[1],
        }),
{
}

/// Law: the seeding routine deduplicates nothing. A second run on a store
/// already seeded once from empty leaves four parties — two pairs with the
/// same names under distinct identifiers.
pub proof fn lemma_seed_twice_no_dedup(s0: Store, s1: Store, s2: Store)
    requires
        seeded(s0, s1),
        seeded(s1, s2),
        s0.parties@.len() == 0,
    ensures
        s1.parties@.len() == 2,
        s2.parties@.len() == 4,
        s2.parties@[0].id == 1 && s2.parties@[0].name@ == "Bui Buyer"@,
        s2.parties@[1].id == 2 && s2.parties@[1].name@ == "Shel Seller"@,
        s2.parties@[2].id == 3 && s2.parties@[2].name@ == "Bui Buyer"@,
        s2.parties@[3].id == 4 && s2.parties@[3].name@ == "Shel Seller"@,
{
}

} // verus!
