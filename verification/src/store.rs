//! The normalized store and its repository operations: insert-one and
//! bounded list operations per entity, plus the composite read that
//! reconstructs each contract together with its framework agreement, its
//! buyer, and its seller.
//!
//! Buyer and seller are two foreign keys on the contracts table that target
//! the same party table, so the composite read resolves each of them with
//! its own identifier-keyed lookup, filtered on the specific column, rather
//! than through a single generic association.

use vstd::prelude::*;
use crate::date::Date;
use crate::errors::{DataIntegrityError, FkColumn, StorageError};
use crate::models::{
    Contract, ContractWithDetails, FrameworkAgreement, NewContract, NewFrameworkAgreement,
    NewParty, Party,
};

verus! {

/// The row cap the reporting routine passes to the list operations.
pub const DEFAULT_LIMIT: usize = 100;

/// `total` capped at `limit`: how many rows a bounded list returns.
pub open spec fn capped(total: int, limit: int) -> int {
    if total <= limit {
        total
    } else {
        limit
    }
}

/// The store: three normalized tables whose rows carry storage-assigned
/// auto-incrementing identifiers.
pub struct Store {
    pub parties: Vec<Party>,
    pub framework_agreements: Vec<FrameworkAgreement>,
    pub contracts: Vec<Contract>,
}

impl Store {
    /// Well-formedness: each table assigns identifiers 1, 2, 3, ... in
    /// insertion order, so the row with identifier `k` sits at index
    /// `k - 1`, and no identifier exceeds `i32::MAX`.
    pub open spec fn wf(self) -> bool {
        &&& self.parties@.len() <= i32::MAX as int
        &&& forall|i: int|
            0 <= i < self.parties@.len() ==> (#[trigger] self.parties@[i]).id as int == i + 1
        &&& self.framework_agreements@.len() <= i32::MAX as int
        &&& forall|i: int|
            0 <= i < self.framework_agreements@.len() ==> (
            #[trigger] self.framework_agreements@[i]).id as int == i + 1
        &&& self.contracts@.len() <= i32::MAX as int
        &&& forall|i: int|
            0 <= i < self.contracts@.len() ==> (#[trigger] self.contracts@[i]).id as int == i + 1
    }

    /// An empty store.
    pub fn new() -> (r: Store)
        ensures
            r.wf(),
            r.parties@.len() == 0,
            r.framework_agreements@.len() == 0,
            r.contracts@.len() == 0,
    {
        Store { parties: Vec::new(), framework_agreements: Vec::new(), contracts: Vec::new() }
    }

    /// Inserts one new party row, assigning the next identifier. Fails only
    /// when the table has no identifier left to assign.
    pub fn insert_party(&mut self, new_party: NewParty) -> (r: Result<Party, StorageError>)
        requires
            old(self).wf(),
        ensures
            final(self).wf(),
            r is Ok <==> old(self).parties@.len() < i32::MAX as int,
            r matches Ok(p) ==> {
                &&& p.id as int == old(self).parties@.len() + 1
                &&& p.name == new_party.name
                &&& final(self).parties@ == old(self).parties@.push(p)
                &&& final(self).framework_agreements@ == old(self).framework_agreements@
                &&& final(self).contracts@ == old(self).contracts@
            },
            r is Err ==> *final(self) == *old(self) && r == Err::<Party, StorageError>(
                StorageError::TableFull,
            ),
    {
        if self.parties.len() >= i32::MAX as usize {
            return Err(StorageError::TableFull);
        }
        let id: i32 = (self.parties.len() + 1) as i32;
        let party = Party { id, name: new_party.name };
        let returned = party.clone();
        self.parties.push(party);
        Ok(returned)
    }

    /// Creates a party with the given display name and returns the fully
    /// populated record. An empty name is allowed.
    pub fn create_party(&mut self, name: String) -> (r: Result<Party, StorageError>)
        requires
            old(self).wf(),
        ensures
            final(self).wf(),
            r is Ok <==> old(self).parties@.len() < i32::MAX as int,
            r matches Ok(p) ==> {
                &&& p.id as int == old(self).parties@.len() + 1
                &&& p.name == name
                &&& final(self).parties@ == old(self).parties@.push(p)
                &&& final(self).framework_agreements@ == old(self).framework_agreements@
                &&& final(self).contracts@ == old(self).contracts@
            },
            r is Err ==> *final(self) == *old(self) && r == Err::<Party, StorageError>(
                StorageError::TableFull,
            ),
    {
        self.insert_party(NewParty { name })
    }

    /// Inserts one new framework agreement row, assigning the next
    /// identifier. Fails only when the table has no identifier left.
    pub fn insert_framework_agreement(&mut self, new_fa: NewFrameworkAgreement) -> (r: Result<
        FrameworkAgreement,
        StorageError,
    >)
        requires
            old(self).wf(),
        ensures
            final(self).wf(),
            r is Ok <==> old(self).framework_agreements@.len() < i32::MAX as int,
            r matches Ok(fa) ==> {
                &&& fa.id as int == old(self).framework_agreements@.len() + 1
                &&& fa.title == new_fa.title
                &&& fa.effective_date == new_fa.effective_date
                &&& final(self).framework_agreements@ == old(self).framework_agreements@.push(fa)
                &&& final(self).parties@ == old(self).parties@
                &&& final(self).contracts@ == old(self).contracts@
            },
            r is Err ==> *final(self) == *old(self) && r == Err::<FrameworkAgreement, StorageError>(
                StorageError::TableFull,
            ),
    {
        if self.framework_agreements.len() >= i32::MAX as usize {
            return Err(StorageError::TableFull);
        }
        let id: i32 = (self.framework_agreements.len() + 1) as i32;
        let fa = FrameworkAgreement {
            id,
            title: new_fa.title,
            effective_date: new_fa.effective_date,
        };
        let returned = fa.clone();
        self.framework_agreements.push(fa);
        Ok(returned)
    }

    /// Creates a framework agreement with the given title and effective
    /// date and returns the fully populated record.
    pub fn create_framework_agreement(&mut self, title: String, effective_date: Date) -> (r:
        Result<FrameworkAgreement, StorageError>)
        requires
            old(self).wf(),
        ensures
            final(self).wf(),
            r is Ok <==> old(self).framework_agreements@.len() < i32::MAX as int,
            r matches Ok(fa) ==> {
                &&& fa.id as int == old(self).framework_agreements@.len() + 1
                &&& fa.title == title
                &&& fa.effective_date == effective_date
                &&& final(self).framework_agreements@ == old(self).framework_agreements@.push(fa)
                &&& final(self).parties@ == old(self).parties@
                &&& final(self).contracts@ == old(self).contracts@
            },
            r is Err ==> *final(self) == *old(self) && r == Err::<FrameworkAgreement, StorageError>(
                StorageError::TableFull,
            ),
    {
        self.insert_framework_agreement(NewFrameworkAgreement { title, effective_date })
    }

    /// Inserts one new contract row as the storage layer does: the next
    /// identifier is assigned and the foreign keys are stored as given,
    /// without being checked against the other tables. Fails only when the
    /// table has no identifier left to assign.
    pub fn insert_contract(&mut self, new_contract: NewContract) -> (r: Result<
        Contract,
        StorageError,
    >)
        requires
            old(self).wf(),
        ensures
            final(self).wf(),
            r is Ok <==> old(self).contracts@.len() < i32::MAX as int,
            r matches Ok(c) ==> {
                &&& c.id as int == old(self).contracts@.len() + 1
                &&& c.title == new_contract.title
                &&& c.effective_date == new_contract.effective_date
                &&& c.buyer_id == new_contract.buyer_id
                &&& c.seller_id == new_contract.seller_id
                &&& c.framework_agreement_id == new_contract.framework_agreement_id
                &&& final(self).contracts@ == old(self).contracts@.push(c)
                &&& final(self).parties@ == old(self).parties@
                &&& final(self).framework_agreements@ == old(self).framework_agreements@
            },
            r is Err ==> *final(self) == *old(self) && r == Err::<Contract, StorageError>(
                StorageError::TableFull,
            ),
    {
        if self.contracts.len() >= i32::MAX as usize {
            return Err(StorageError::TableFull);
        }
        let id: i32 = (self.contracts.len() + 1) as i32;
        let contract = Contract {
            id,
            title: new_contract.title,
            effective_date: new_contract.effective_date,
            buyer_id: new_contract.buyer_id,
            seller_id: new_contract.seller_id,
            framework_agreement_id: new_contract.framework_agreement_id,
        };
        let returned = contract.clone();
        self.contracts.push(contract);
        Ok(returned)
    }

    /// Whether the foreign keys of `buyer`, `seller`, and `fa` each match a
    /// row of this store (under `wf`, identifier `k` exists in a table
    /// exactly when `1 <= k <= len`).
    pub open spec fn contract_refs_ok(
        self,
        fa: FrameworkAgreement,
        buyer: Party,
        seller: Party,
    ) -> bool {
        &&& 1 <= fa.id as int <= self.framework_agreements@.len()
        &&& 1 <= buyer.id as int <= self.parties@.len()
        &&& 1 <= seller.id as int <= self.parties@.len()
    }

    /// The error a contract creation reports when a referenced row is
    /// missing or the table is full: the first failing check in the order
    /// framework agreement, buyer, seller, capacity.
    pub open spec fn creation_error(
        self,
        fa: FrameworkAgreement,
        buyer: Party,
        seller: Party,
    ) -> StorageError {
        if !(1 <= fa.id as int <= self.framework_agreements@.len()) {
            StorageError::ForeignKeyViolation(FkColumn::FrameworkAgreementId)
        } else if !(1 <= buyer.id as int <= self.parties@.len()) {
            StorageError::ForeignKeyViolation(FkColumn::BuyerId)
        } else if !(1 <= seller.id as int <= self.parties@.len()) {
            StorageError::ForeignKeyViolation(FkColumn::SellerId)
        } else {
            StorageError::TableFull
        }
    }

    /// Creates a contract instance for a framework agreement, between a
    /// buyer and a seller. The related records are taken as already-created
    /// values; their identifiers are extracted for the insert and checked
    /// against the store, so a stale or foreign record is rejected with a
    /// referential-violation error rather than stored dangling.
    pub fn create_contract_for_fa(
        &mut self,
        framework_agreement: &FrameworkAgreement,
        title: String,
        effective_date: Date,
        buyer: &Party,
        seller: &Party,
    ) -> (r: Result<Contract, StorageError>)
        requires
            old(self).wf(),
        ensures
            final(self).wf(),
            r is Ok <==> (old(self).contract_refs_ok(*framework_agreement, *buyer, *seller)
                && old(self).contracts@.len() < i32::MAX as int),
            r matches Ok(c) ==> {
                &&& c.id as int == old(self).contracts@.len() + 1
                &&& c.title == title
                &&& c.effective_date == effective_date
                &&& c.buyer_id == buyer.id
                &&& c.seller_id == seller.id
                &&& c.framework_agreement_id == framework_agreement.id
                &&& final(self).contracts@ == old(self).contracts@.push(c)
                &&& final(self).parties@ == old(self).parties@
                &&& final(self).framework_agreements@ == old(self).framework_agreements@
            },
            r matches Err(e) ==> *final(self) == *old(self) && e == old(self).creation_error(
                *framework_agreement,
                *buyer,
                *seller,
            ),
    {
        if !(1 <= framework_agreement.id && framework_agreement.id as usize
            <= self.framework_agreements.len()) {
            return Err(StorageError::ForeignKeyViolation(FkColumn::FrameworkAgreementId));
        }
        if !(1 <= buyer.id && buyer.id as usize <= self.parties.len()) {
            return Err(StorageError::ForeignKeyViolation(FkColumn::BuyerId));
        }
        if !(1 <= seller.id && seller.id as usize <= self.parties.len()) {
            return Err(StorageError::ForeignKeyViolation(FkColumn::SellerId));
        }
        self.insert_contract(
            NewContract {
                title,
                effective_date,
                buyer_id: buyer.id,
                seller_id: seller.id,
                framework_agreement_id: framework_agreement.id,
            },
        )
    }

    /// Lists at most `limit` parties, in insertion order from the start of
    /// the table.
    pub fn list_parties(&self, limit: usize) -> (r: Vec<Party>)
        ensures
            r@.len() == capped(self.parties@.len() as int, limit as int),
            forall|i: int| 0 <= i < r@.len() ==> r@[i] == self.parties@[i],
    {
        let n: usize = if self.parties.len() < limit {
            self.parties.len()
        } else {
            limit
        };
        let mut result: Vec<Party> = Vec::new();
        let mut i: usize = 0;
        while i < n
            invariant
                n as int == capped(self.parties@.len() as int, limit as int),
                n <= self.parties@.len(),
                i <= n,
                result@.len() == i as int,
                forall|k: int| 0 <= k < i ==> result@[k] == self.parties@[k],
            decreases n - i,
        {
            result.push(self.parties[i].clone());
            i = i + 1;
        }
        result
    }

    /// Lists at most `limit` framework agreements, in insertion order from
    /// the start of the table.
    pub fn list_framework_agreements(&self, limit: usize) -> (r: Vec<FrameworkAgreement>)
        ensures
            r@.len() == capped(self.framework_agreements@.len() as int, limit as int),
            forall|i: int| 0 <= i < r@.len() ==> r@[i] == self.framework_agreements@[i],
    {
        let n: usize = if self.framework_agreements.len() < limit {
            self.framework_agreements.len()
        } else {
            limit
        };
        let mut result: Vec<FrameworkAgreement> = Vec::new();
        let mut i: usize = 0;
        while i < n
            invariant
                n as int == capped(self.framework_agreements@.len() as int, limit as int),
                n <= self.framework_agreements@.len(),
                i <= n,
                result@.len() == i as int,
                forall|k: int| 0 <= k < i ==> result@[k] == self.framework_agreements@[k],
            decreases n - i,
        {
            result.push(self.framework_agreements[i].clone());
            i = i + 1;
        }
        result
    }

    /// Looks a party up by identifier. This is the lookup the composite
    /// read runs twice per contract, once on `buyer_id` and once on
    /// `seller_id`.
    pub fn find_party(&self, id: i32) -> (r: Option<Party>)
        requires
            self.wf(),
        ensures
            r is Some <==> 1 <= id as int <= self.parties@.len(),
            r matches Some(p) ==> p == self.parties@[id - 1] && p.id == id,
    {
        let mut i: usize = 0;
        while i < self.parties.len()
            invariant
                self.wf(),
                i <= self.parties@.len(),
                forall|k: int| 0 <= k < i ==> (#[trigger] self.parties@[k]).id != id,
            decreases self.parties@.len() - i,
        {
            if self.parties[i].id == id {
                return Some(self.parties[i].clone());
            }
            i = i + 1;
        }
        proof {
            if 1 <= id as int && id as int <= self.parties@.len() {
                assert(self.parties@[id - 1].id as int == id as int);
            }
        }
        None
    }

    /// Looks a framework agreement up by identifier.
    pub fn find_framework_agreement(&self, id: i32) -> (r: Option<FrameworkAgreement>)
        requires
            self.wf(),
        ensures
            r is Some <==> 1 <= id as int <= self.framework_agreements@.len(),
            r matches Some(fa) ==> fa == self.framework_agreements@[id - 1] && fa.id == id,
    {
        let mut i: usize = 0;
        while i < self.framework_agreements.len()
            invariant
                self.wf(),
                i <= self.framework_agreements@.len(),
                forall|k: int| 0 <= k < i ==> (#[trigger] self.framework_agreements@[k]).id != id,
            decreases self.framework_agreements@.len() - i,
        {
            if self.framework_agreements[i].id == id {
                return Some(self.framework_agreements[i].clone());
            }
            i = i + 1;
        }
        proof {
            if 1 <= id as int && id as int <= self.framework_agreements@.len() {
                assert(self.framework_agreements@[id - 1].id as int == id as int);
            }
        }
        None
    }

    /// Whether every foreign key of `c` matches a row of this store.
    pub open spec fn contract_resolvable(self, c: Contract) -> bool {
        &&& 1 <= c.framework_agreement_id as int <= self.framework_agreements@.len()
        &&& 1 <= c.buyer_id as int <= self.parties@.len()
        &&& 1 <= c.seller_id as int <= self.parties@.len()
    }

    /// The composite row for `c`: under `wf`, the row with identifier `k`
    /// sits at index `k - 1` of its table.
    pub open spec fn resolved_row(self, c: Contract) -> ContractWithDetails
        recommends
            self.contract_resolvable(c),
    {
        ContractWithDetails {
            contract: c,
            framework_agreement: self.framework_agreements@[c.framework_agreement_id - 1],
            buyer: self.parties@[c.buyer_id - 1],
            seller: self.parties@[c.seller_id - 1],
        }
    }

    /// The error the composite read reports for `c` when a foreign key of
    /// `c` is dangling: the first dangling column in the order framework
    /// agreement, buyer, seller.
    pub open spec fn integrity_error_for(self, c: Contract) -> DataIntegrityError {
        if !(1 <= c.framework_agreement_id as int <= self.framework_agreements@.len()) {
            DataIntegrityError {
                contract_id: c.id,
                column: FkColumn::FrameworkAgreementId,
                missing_id: c.framework_agreement_id,
            }
        } else if !(1 <= c.buyer_id as int <= self.parties@.len()) {
            DataIntegrityError {
                contract_id: c.id,
                column: FkColumn::BuyerId,
                missing_id: c.buyer_id,
            }
        } else {
            DataIntegrityError {
                contract_id: c.id,
                column: FkColumn::SellerId,
                missing_id: c.seller_id,
            }
        }
    }

    /// Resolves one contract to its composite row, or reports the first
    /// dangling foreign key. Buyer and seller are resolved by two
    /// independent lookups on their own columns.
    pub fn resolve_contract(&self, contract: &Contract) -> (r: Result<
        ContractWithDetails,
        DataIntegrityError,
    >)
        requires
            self.wf(),
        ensures
            r is Ok <==> self.contract_resolvable(*contract),
            r matches Ok(row) ==> row == self.resolved_row(*contract),
            r matches Err(e) ==> !self.contract_resolvable(*contract) && e
                == self.integrity_error_for(*contract),
    {
        let fa = match self.find_framework_agreement(contract.framework_agreement_id) {
            Some(fa) => fa,
            None => {
                return Err(
                    DataIntegrityError {
                        contract_id: contract.id,
                        column: FkColumn::FrameworkAgreementId,
                        missing_id: contract.framework_agreement_id,
                    },
                );
            },
        };
        let buyer = match self.find_party(contract.buyer_id) {
            Some(p) => p,
            None => {
                return Err(
                    DataIntegrityError {
                        contract_id: contract.id,
                        column: FkColumn::BuyerId,
                        missing_id: contract.buyer_id,
                    },
                );
            },
        };
        let seller = match self.find_party(contract.seller_id) {
            Some(p) => p,
            None => {
                return Err(
                    DataIntegrityError {
                        contract_id: contract.id,
                        column: FkColumn::SellerId,
                        missing_id: contract.seller_id,
                    },
                );
            },
        };
        Ok(
            ContractWithDetails {
                contract: contract.clone(),
                framework_agreement: fa,
                buyer,
                seller,
            },
        )
    }

    /// Lists at most `limit` contracts, each resolved to its composite row:
    /// the contract, its framework agreement, its buyer, and its seller.
    /// Fails with a data-integrity error as soon as a contract within the
    /// cap carries a foreign key with no matching row, rather than
    /// returning that contract with a hole.
    pub fn list_contracts_with_details(&self, limit: usize) -> (r: Result<
        Vec<ContractWithDetails>,
        DataIntegrityError,
    >)
        requires
            self.wf(),
        ensures
            r is Ok <==> (forall|j: int|
                0 <= j < capped(self.contracts@.len() as int, limit as int)
                    ==> self.contract_resolvable(#[trigger] self.contracts@[j])),
            r matches Ok(v) ==> {
                &&& v@.len() == capped(self.contracts@.len() as int, limit as int)
                &&& forall|j: int|
                    0 <= j < v@.len() ==> v@[j] == self.resolved_row(#[trigger] self.contracts@[j])
            },
            r matches Err(e) ==> exists|j: int|
                {
                    &&& 0 <= j < capped(self.contracts@.len() as int, limit as int)
                    &&& !self.contract_resolvable(#[trigger] self.contracts@[j])
                    &&& e == self.integrity_error_for(self.contracts@[j])
                    &&& forall|k: int| 0 <= k < j ==> self.contract_resolvable(
                        #[trigger] self.contracts@[k])
                },
    {
        let n: usize = if self.contracts.len() < limit {
            self.contracts.len()
        } else {
            limit
        };
        let mut result: Vec<ContractWithDetails> = Vec::new();
        let mut i: usize = 0;
        while i < n
            invariant
                self.wf(),
                n as int == capped(self.contracts@.len() as int, limit as int),
                n <= self.contracts@.len(),
                i <= n,
                result@.len() == i as int,
                forall|k: int|
                    0 <= k < i ==> self.contract_resolvable(#[trigger] self.contracts@[k]),
                forall|k: int|
                    0 <= k < i ==> result@[k] == self.resolved_row(#[trigger] self.contracts@[k]),
            decreases n - i,
        {
            match self.resolve_contract(&self.contracts[i]) {
                Ok(row) => {
                    result.push(row);
                },
                Err(e) => {
                    return Err(e);
                },
            }
            i = i + 1;
        }
        Ok(result)
    }
}

} // verus!
