//! Row types for the three tables, and their "new record" counterparts used
//! for inserts, which omit the storage-assigned identifier.

use vstd::prelude::*;
use crate::date::Date;

verus! {

/// A contract party.
#[derive(Debug, PartialEq, Eq)]
pub struct Party {
    pub id: i32,
    pub name: String,
}

impl Clone for Party {
    fn clone(&self) -> (r: Self)
        ensures
            r == *self,
    {
        Party { id: self.id, name: self.name.clone() }
    }
}

/// A new [`Party`], before an identifier is assigned.
#[derive(Debug, PartialEq, Eq)]
pub struct NewParty {
    pub name: String,
}

/// A framework agreement. A [`Contract`] may be a specific instance of this.
#[derive(Debug, PartialEq, Eq)]
pub struct FrameworkAgreement {
    pub id: i32,
    pub title: String,
    pub effective_date: Date,
}

impl Clone for FrameworkAgreement {
    fn clone(&self) -> (r: Self)
        ensures
            r == *self,
    {
        FrameworkAgreement {
            id: self.id,
            title: self.title.clone(),
            effective_date: self.effective_date,
        }
    }
}

/// A new [`FrameworkAgreement`], before an identifier is assigned.
#[derive(Debug, PartialEq, Eq)]
pub struct NewFrameworkAgreement {
    pub title: String,
    pub effective_date: Date,
}

/// A contract instance: a specific agreement between a buyer and a seller
/// under one framework agreement.
#[derive(Debug, PartialEq, Eq)]
pub struct Contract {
    pub id: i32,
    pub title: String,
    pub effective_date: Date,
    pub buyer_id: i32,
    pub seller_id: i32,
    pub framework_agreement_id: i32,
}

impl Clone for Contract {
    fn clone(&self) -> (r: Self)
        ensures
            r == *self,
    {
        Contract {
            id: self.id,
            title: self.title.clone(),
            effective_date: self.effective_date,
            buyer_id: self.buyer_id,
            seller_id: self.seller_id,
            framework_agreement_id: self.framework_agreement_id,
        }
    }
}

/// A new [`Contract`], before an identifier is assigned. Holds the raw
/// foreign keys; nothing in this shape prevents a dangling reference.
#[derive(Debug, PartialEq, Eq)]
pub struct NewContract {
    pub title: String,
    pub effective_date: Date,
    pub buyer_id: i32,
    pub seller_id: i32,
    pub framework_agreement_id: i32,
}

impl Clone for NewContract {
    fn clone(&self) -> (r: Self)
        ensures
            r == *self,
    {
        NewContract {
            title: self.title.clone(),
            effective_date: self.effective_date,
            buyer_id: self.buyer_id,
            seller_id: self.seller_id,
            framework_agreement_id: self.framework_agreement_id,
        }
    }
}

/// One row of the composite read: a contract together with its framework
/// agreement, its buyer, and its seller.
#[derive(Debug, PartialEq, Eq)]
pub struct ContractWithDetails {
    pub contract: Contract,
    pub framework_agreement: FrameworkAgreement,
    pub buyer: Party,
    pub seller: Party,
}

impl Clone for ContractWithDetails {
    fn clone(&self) -> (r: Self)
        ensures
            r == *self,
    {
        ContractWithDetails {
            contract: self.contract.clone(),
            framework_agreement: self.framework_agreement.clone(),
            buyer: self.buyer.clone(),
            seller: self.seller.clone(),
        }
    }
}

} // verus!
