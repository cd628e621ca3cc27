//! The seeding routine: populates the store with a fixed demo dataset by
//! composing the repository insert operations.

use vstd::prelude::*;
use crate::date::Date;
use crate::errors::StorageError;
use crate::store::Store;

verus! {

/// What one run of the seeding routine appends to `pre` to give `post`:
/// two parties, two framework agreements with distinct titles and effective
/// dates, and two contracts, each referencing one of the two agreements and
/// both seeded parties (the first as buyer, the second as seller).
pub open spec fn seeded(pre: Store, post: Store) -> bool {
    let p = pre.parties@.len() as int;
    let f = pre.framework_agreements@.len() as int;
    let c = pre.contracts@.len() as int;
    &&& post.parties@.len() == p + 2
    &&& post.parties@.subrange(0, p) == pre.parties@
    &&& post.parties@[p].id as int == p + 1
    &&& post.parties@[p].name@ == "Bui Buyer"@
    &&& post.parties@[p + 1].id as int == p + 2
    &&& post.parties@[p + 1].name@ == "Shel Seller"@
    &&& post.framework_agreements@.len() == f + 2
    &&& post.framework_agreements@.subrange(0, f) == pre.framework_agreements@
    &&& post.framework_agreements@[f].id as int == f + 1
    &&& post.framework_agreements@[f].title@ == "MSA v1.0"@
    &&& post.framework_agreements@[f].effective_date == (Date { year: 2023, month: 1, day: 1 })
    &&& post.framework_agreements@[f + 1].id as int == f + 2
    &&& post.framework_agreements@[f + 1].title@ == "MSA v1.1"@
    &&& post.framework_agreements@[f + 1].effective_date == (Date {
        year: 2024,
        month: 1,
        day: 1,
    })
    &&& post.contracts@.len() == c + 2
    &&& post.contracts@.subrange(0, c) == pre.contracts@
    &&& post.contracts@[c].id as int == c + 1
    &&& post.contracts@[c].title@ == "Foobar 2023 License"@
    &&& post.contracts@[c].effective_date == (Date { year: 2023, month: 7, day: 1 })
    &&& post.contracts@[c].buyer_id as int == p + 1
    &&& post.contracts@[c].seller_id as int == p + 2
    &&& post.contracts@[c].framework_agreement_id as int == f + 1
    &&& post.contracts@[c + 1].id as int == c + 2
    &&& post.contracts@[c + 1].title@ == "Foobar 2024 License"@
    &&& post.contracts@[c + 1].effective_date == (Date { year: 2024, month: 7, day: 1 })
    &&& post.contracts@[c + 1].buyer_id as int == p + 1
    &&& post.contracts@[c + 1].seller_id as int == p + 2
    &&& post.contracts@[c + 1].framework_agreement_id as int == f + 2
}

/// Populates the store with the fixed demo dataset. Not idempotent by
/// design: a second run appends a second copy of the dataset under fresh
/// identifiers, since no uniqueness constraint holds for names or titles.
/// Fails, leaving the store unchanged, only when a table is too near its
/// identifier limit to take two more rows.
pub fn populate_data(store: &mut Store) -> (r: Result<(), StorageError>)
    requires
        old(store).wf(),
    ensures
        final(store).wf(),
        r is Ok <==> {
            &&& old(store).parties@.len() + 2 <= i32::MAX as int
            &&& old(store).framework_agreements@.len() + 2 <= i32::MAX as int
            &&& old(store).contracts@.len() + 2 <= i32::MAX as int
        },
        r is Ok ==> seeded(*old(store), *final(store)),
        r is Err ==> *final(store) == *old(store) && r == Err::<(), StorageError>(
            StorageError::TableFull,
        ),
{
    if store.parties.len() > i32::MAX as usize - 2 || store.framework_agreements.len()
        > i32::MAX as usize - 2 || store.contracts.len() > i32::MAX as usize - 2 {
        return Err(StorageError::TableFull);
    }
    let buyer = match store.create_party("Bui Buyer".to_owned()) {
        Ok(p) => p,
        Err(e) => {
            return Err(e);
        },
    };
    let seller = match store.create_party("Shel Seller".to_owned()) {
        Ok(p) => p,
        Err(e) => {
            return Err(e);
        },
    };
    let msa10 = match store.create_framework_agreement(
        "MSA v1.0".to_owned(),
        Date::from_ymd_opt(2023, 1, 1).unwrap(),
    ) {
        Ok(fa) => fa,
        Err(e) => {
            return Err(e);
        },
    };
    let msa11 = match store.create_framework_agreement(
        "MSA v1.1".to_owned(),
        Date::from_ymd_opt(2024, 1, 1).unwrap(),
    ) {
        Ok(fa) => fa,
        Err(e) => {
            return Err(e);
        },
    };
    let _c_a = match store.create_contract_for_fa(
        &msa10,
        "Foobar 2023 License".to_owned(),
        Date::from_ymd_opt(2023, 7, 1).unwrap(),
        &buyer,
        &seller,
    ) {
        Ok(c) => c,
        Err(e) => {
            return Err(e);
        },
    };
    let _c_b = match store.create_contract_for_fa(
        &msa11,
        "Foobar 2024 License".to_owned(),
        Date::from_ymd_opt(2024, 7, 1).unwrap(),
        &buyer,
        &seller,
    ) {
        Ok(c) => c,
        Err(e) => {
            return Err(e);
        },
    };
    proof {
        assert(store.parties@.subrange(0, old(store).parties@.len() as int) =~= old(
            store,
        ).parties@);
        assert(store.framework_agreements@.subrange(
            0,
            old(store).framework_agreements@.len() as int,
        ) =~= old(store).framework_agreements@);
        assert(store.contracts@.subrange(0, old(store).contracts@.len() as int) =~= old(
            store,
        ).contracts@);
    }
    Ok(())
}

} // verus!
