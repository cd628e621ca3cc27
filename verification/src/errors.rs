//! Error values for the repository operations. A failed write is a
//! [`StorageError`]; a composite read that meets a foreign key with no
//! matching target row is a [`DataIntegrityError`], kept distinct because it
//! signals a data-consistency problem rather than a write failure.

use vstd::prelude::*;

verus! {

/// The foreign-key columns of the contracts table.
#[derive(Clone, Copy, Debug, PartialEq, Eq, Structural)]
pub enum FkColumn {
    FrameworkAgreementId,
    BuyerId,
    SellerId,
}

/// A write failed: a table has no identifier left to assign, or a contract
/// insert referenced a row that does not exist.
#[derive(Clone, Copy, Debug, PartialEq, Eq, Structural)]
pub enum StorageError {
    TableFull,
    ForeignKeyViolation(FkColumn),
}

/// A composite read found a contract whose foreign key `column` holds
/// `missing_id`, which matches no target row.
#[derive(Clone, Copy, Debug, PartialEq, Eq, Structural)]
pub struct DataIntegrityError {
    pub contract_id: i32,
    pub column: FkColumn,
    pub missing_id: i32,
}

impl StorageError {
    /// A human-readable description naming what failed.
    pub fn message(&self) -> (s: &'static str)
        ensures
            *self == StorageError::TableFull ==> s@ == "table is full: no identifier left to assign"@,
            *self == StorageError::ForeignKeyViolation(FkColumn::FrameworkAgreementId) ==> s@
                == "insert failed: framework_agreement_id references no framework agreement"@,
            *self == StorageError::ForeignKeyViolation(FkColumn::BuyerId) ==> s@
                == "insert failed: buyer_id references no party"@,
            *self == StorageError::ForeignKeyViolation(FkColumn::SellerId) ==> s@
                == "insert failed: seller_id references no party"@,
    {
        match self {
            StorageError::TableFull => "table is full: no identifier left to assign",
            StorageError::ForeignKeyViolation(FkColumn::FrameworkAgreementId) => "insert failed: framework_agreement_id references no framework agreement",
            StorageError::ForeignKeyViolation(FkColumn::BuyerId) => "insert failed: buyer_id references no party",
            StorageError::ForeignKeyViolation(FkColumn::SellerId) => "insert failed: seller_id references no party",
        }
    }
}

impl DataIntegrityError {
    /// A human-readable description naming the dangling foreign key.
    pub fn message(&self) -> (s: &'static str)
        ensures
            self.column == FkColumn::FrameworkAgreementId ==> s@
                == "data integrity: contract references no framework agreement"@,
            self.column == FkColumn::BuyerId ==> s@
                == "data integrity: contract's buyer_id references no party"@,
            self.column == FkColumn::SellerId ==> s@
                == "data integrity: contract's seller_id references no party"@,
    {
        match self.column {
            FkColumn::FrameworkAgreementId => "data integrity: contract references no framework agreement",
            FkColumn::BuyerId => "data integrity: contract's buyer_id references no party",
            FkColumn::SellerId => "data integrity: contract's seller_id references no party",
        }
    }
}

} // verus!
