use contract_store::date::Date;
use contract_store::errors::{DataIntegrityError, FkColumn, StorageError};
use contract_store::models::{NewContract, Party};
use contract_store::seed::populate_data;
use contract_store::store::{Store, DEFAULT_LIMIT};

fn date(year: i32, month: u8, day: u8) -> Date {
    Date::from_ymd_opt(year, month, day).expect("valid date")
}

#[test]
fn created_party_gets_unique_id_and_is_listed() {
    let mut store = Store::new();
    let a = store.create_party("Alpha GmbH".to_owned()).unwrap();
    let b = store.create_party("Beta AG".to_owned()).unwrap();
    let c = store.create_party("Beta AG".to_owned()).unwrap();
    assert_ne!(a.id, b.id);
    assert_ne!(b.id, c.id);
    assert_ne!(a.id, c.id);
    let listed = store.list_parties(DEFAULT_LIMIT);
    assert!(listed.iter().any(|p| p.id == a.id && p.name == "Alpha GmbH"));
    assert!(listed.iter().any(|p| p.id == b.id && p.name == "Beta AG"));
    assert!(listed.iter().any(|p| p.id == c.id && p.name == "Beta AG"));
}

#[test]
fn empty_party_name_is_allowed() {
    let mut store = Store::new();
    let p = store.create_party(String::new()).unwrap();
    assert_eq!(p.id, 1);
    assert_eq!(p.name, "");
    let listed = store.list_parties(DEFAULT_LIMIT);
    assert_eq!(listed.len(), 1);
    assert_eq!(listed[0].name, "");
}

#[test]
fn created_contract_round_trips_through_composite_read() {
    let mut store = Store::new();
    let buyer = store.create_party("Buyer Co".to_owned()).unwrap();
    let seller = store.create_party("Seller Co".to_owned()).unwrap();
    let fa = store
        .create_framework_agreement("Master".to_owned(), date(2022, 3, 15))
        .unwrap();
    let contract = store
        .create_contract_for_fa(&fa, "Deal".to_owned(), date(2022, 6, 1), &buyer, &seller)
        .unwrap();

    let rows = store.list_contracts_with_details(DEFAULT_LIMIT).unwrap();
    assert_eq!(rows.len(), 1);
    let row = &rows[0];
    assert_eq!(row.contract, contract);
    assert_eq!(row.framework_agreement, fa);
    assert_eq!(row.buyer, buyer);
    assert_eq!(row.seller, seller);
}

#[test]
fn buyer_and_seller_may_be_the_same_party() {
    let mut store = Store::new();
    let party = store.create_party("Self Dealer".to_owned()).unwrap();
    let fa = store
        .create_framework_agreement("Master".to_owned(), date(2021, 1, 1))
        .unwrap();
    let contract = store
        .create_contract_for_fa(&fa, "Own Deal".to_owned(), date(2021, 2, 2), &party, &party)
        .unwrap();
    assert_eq!(contract.buyer_id, party.id);
    assert_eq!(contract.seller_id, party.id);

    let rows = store.list_contracts_with_details(DEFAULT_LIMIT).unwrap();
    assert_eq!(rows.len(), 1);
    assert_eq!(rows[0].buyer, party);
    assert_eq!(rows[0].seller, party);
}

#[test]
fn listings_return_min_of_total_and_limit() {
    let mut store = Store::new();
    for i in 0..5 {
        store.create_party(format!("Party {i}")).unwrap();
        let fa = store
            .create_framework_agreement(format!("FA {i}"), date(2020, 1, 1))
            .unwrap();
        let p = store.list_parties(1)[0].clone();
        store
            .create_contract_for_fa(&fa, format!("C {i}"), date(2020, 2, 1), &p, &p)
            .unwrap();
    }
    assert_eq!(store.list_parties(3).len(), 3);
    assert_eq!(store.list_parties(5).len(), 5);
    assert_eq!(store.list_parties(100).len(), 5);
    assert_eq!(store.list_parties(0).len(), 0);
    assert_eq!(store.list_framework_agreements(2).len(), 2);
    assert_eq!(store.list_framework_agreements(100).len(), 5);
    assert_eq!(store.list_contracts_with_details(4).unwrap().len(), 4);
    assert_eq!(store.list_contracts_with_details(100).unwrap().len(), 5);
    assert_eq!(store.list_contracts_with_details(0).unwrap().len(), 0);
}

#[test]
fn default_limit_caps_at_one_hundred_rows() {
    let mut store = Store::new();
    for i in 0..105 {
        store.create_party(format!("Party {i}")).unwrap();
    }
    let listed = store.list_parties(DEFAULT_LIMIT);
    assert_eq!(listed.len(), 100);
    assert_eq!(listed[99].id, 100);
}

#[test]
fn listing_truncates_to_the_first_rows() {
    let mut store = Store::new();
    store.create_party("First".to_owned()).unwrap();
    store.create_party("Second".to_owned()).unwrap();
    store.create_party("Third".to_owned()).unwrap();
    let listed = store.list_parties(2);
    assert_eq!(listed.len(), 2);
    assert_eq!(listed[0].name, "First");
    assert_eq!(listed[1].name, "Second");
}

#[test]
fn seeding_an_empty_store_yields_the_demo_counts() {
    let mut store = Store::new();
    populate_data(&mut store).unwrap();

    let parties = store.list_parties(DEFAULT_LIMIT);
    let fas = store.list_framework_agreements(DEFAULT_LIMIT);
    let rows = store.list_contracts_with_details(DEFAULT_LIMIT).unwrap();
    assert_eq!(parties.len(), 2);
    assert_eq!(fas.len(), 2);
    assert_eq!(rows.len(), 2);

    assert_eq!(parties[0].name, "Bui Buyer");
    assert_eq!(parties[1].name, "Shel Seller");
    assert_eq!(fas[0].title, "MSA v1.0");
    assert_eq!(fas[0].effective_date, date(2023, 1, 1));
    assert_eq!(fas[1].title, "MSA v1.1");
    assert_eq!(fas[1].effective_date, date(2024, 1, 1));

    for row in &rows {
        assert_eq!(row.buyer.name, "Bui Buyer");
        assert_eq!(row.seller.name, "Shel Seller");
        assert_eq!(row.framework_agreement.id, row.contract.framework_agreement_id);
    }
    assert_eq!(rows[0].contract.title, "Foobar 2023 License");
    assert_eq!(rows[0].contract.effective_date, date(2023, 7, 1));
    assert_eq!(rows[0].framework_agreement.title, "MSA v1.0");
    assert_eq!(rows[1].contract.title, "Foobar 2024 License");
    assert_eq!(rows[1].contract.effective_date, date(2024, 7, 1));
    assert_eq!(rows[1].framework_agreement.title, "MSA v1.1");
}

#[test]
fn seeding_twice_duplicates_without_deduplication() {
    let mut store = Store::new();
    populate_data(&mut store).unwrap();
    populate_data(&mut store).unwrap();

    let parties = store.list_parties(DEFAULT_LIMIT);
    assert_eq!(parties.len(), 4);
    assert_eq!(parties[0].id, 1);
    assert_eq!(parties[1].id, 2);
    assert_eq!(parties[2].id, 3);
    assert_eq!(parties[3].id, 4);
    assert_eq!(parties[0].name, "Bui Buyer");
    assert_eq!(parties[1].name, "Shel Seller");
    assert_eq!(parties[2].name, "Bui Buyer");
    assert_eq!(parties[3].name, "Shel Seller");

    assert_eq!(store.list_framework_agreements(DEFAULT_LIMIT).len(), 4);
    assert_eq!(store.list_contracts_with_details(DEFAULT_LIMIT).unwrap().len(), 4);
}

#[test]
fn dangling_seller_fails_the_composite_read() {
    let mut store = Store::new();
    let buyer = store.create_party("Only Party".to_owned()).unwrap();
    store
        .create_framework_agreement("Master".to_owned(), date(2020, 5, 5))
        .unwrap();
    let inserted = store
        .insert_contract(NewContract {
            title: "Broken".to_owned(),
            effective_date: date(2020, 6, 6),
            buyer_id: buyer.id,
            seller_id: 999,
            framework_agreement_id: 1,
        })
        .unwrap();

    let err = store.list_contracts_with_details(DEFAULT_LIMIT).unwrap_err();
    assert_eq!(
        err,
        DataIntegrityError { contract_id: inserted.id, column: FkColumn::SellerId, missing_id: 999 }
    );
    assert_eq!(err.message(), "data integrity: contract's seller_id references no party");
}

#[test]
fn dangling_buyer_fails_the_composite_read() {
    let mut store = Store::new();
    let seller = store.create_party("Only Party".to_owned()).unwrap();
    store
        .create_framework_agreement("Master".to_owned(), date(2020, 5, 5))
        .unwrap();
    store
        .insert_contract(NewContract {
            title: "Broken".to_owned(),
            effective_date: date(2020, 6, 6),
            buyer_id: -3,
            seller_id: seller.id,
            framework_agreement_id: 1,
        })
        .unwrap();

    let err = store.list_contracts_with_details(DEFAULT_LIMIT).unwrap_err();
    assert_eq!(err.column, FkColumn::BuyerId);
    assert_eq!(err.missing_id, -3);
    assert_eq!(err.message(), "data integrity: contract's buyer_id references no party");
}

#[test]
fn dangling_framework_agreement_fails_the_composite_read() {
    let mut store = Store::new();
    let p = store.create_party("Party".to_owned()).unwrap();
    store
        .insert_contract(NewContract {
            title: "Broken".to_owned(),
            effective_date: date(2020, 6, 6),
            buyer_id: p.id,
            seller_id: p.id,
            framework_agreement_id: 7,
        })
        .unwrap();

    let err = store.list_contracts_with_details(DEFAULT_LIMIT).unwrap_err();
    assert_eq!(err.column, FkColumn::FrameworkAgreementId);
    assert_eq!(err.missing_id, 7);
    assert_eq!(
        err.message(),
        "data integrity: contract references no framework agreement"
    );
}

#[test]
fn stale_references_are_rejected_at_creation() {
    let mut store = Store::new();
    let buyer = store.create_party("Buyer".to_owned()).unwrap();
    let seller = store.create_party("Seller".to_owned()).unwrap();
    let fa = store
        .create_framework_agreement("Master".to_owned(), date(2020, 1, 1))
        .unwrap();

    let stale_fa = contract_store::models::FrameworkAgreement {
        id: 9,
        title: "Nowhere".to_owned(),
        effective_date: date(2020, 1, 1),
    };
    let err = store
        .create_contract_for_fa(&stale_fa, "X".to_owned(), date(2020, 2, 2), &buyer, &seller)
        .unwrap_err();
    assert_eq!(err, StorageError::ForeignKeyViolation(FkColumn::FrameworkAgreementId));
    assert_eq!(
        err.message(),
        "insert failed: framework_agreement_id references no framework agreement"
    );

    let stale_party = Party { id: 50, name: "Ghost".to_owned() };
    let err = store
        .create_contract_for_fa(&fa, "X".to_owned(), date(2020, 2, 2), &stale_party, &seller)
        .unwrap_err();
    assert_eq!(err, StorageError::ForeignKeyViolation(FkColumn::BuyerId));
    assert_eq!(err.message(), "insert failed: buyer_id references no party");

    let err = store
        .create_contract_for_fa(&fa, "X".to_owned(), date(2020, 2, 2), &buyer, &stale_party)
        .unwrap_err();
    assert_eq!(err, StorageError::ForeignKeyViolation(FkColumn::SellerId));
    assert_eq!(err.message(), "insert failed: seller_id references no party");

    // Nothing was stored by the rejected creations.
    assert!(store.list_contracts_with_details(DEFAULT_LIMIT).unwrap().is_empty());
    assert_eq!(
        StorageError::TableFull.message(),
        "table is full: no identifier left to assign"
    );
}

#[test]
fn find_operations_look_rows_up_by_identifier() {
    let mut store = Store::new();
    let a = store.create_party("A".to_owned()).unwrap();
    let b = store.create_party("B".to_owned()).unwrap();
    let fa = store
        .create_framework_agreement("Master".to_owned(), date(2020, 1, 1))
        .unwrap();

    assert_eq!(store.find_party(a.id), Some(a));
    assert_eq!(store.find_party(b.id), Some(b));
    assert_eq!(store.find_party(3), None);
    assert_eq!(store.find_party(0), None);
    assert_eq!(store.find_party(-1), None);
    assert_eq!(store.find_framework_agreement(fa.id), Some(fa));
    assert_eq!(store.find_framework_agreement(2), None);
}

#[test]
fn concrete_scenario_one_contract_with_details() {
    let mut store = Store::new();
    let buyer = store.create_party("Bui Buyer".to_owned()).unwrap();
    assert_eq!(buyer.id, 1);
    let seller = store.create_party("Shel Seller".to_owned()).unwrap();
    assert_eq!(seller.id, 2);
    let fa = store
        .create_framework_agreement("MSA v1.0".to_owned(), date(2023, 1, 1))
        .unwrap();
    assert_eq!(fa.id, 1);
    let contract = store
        .create_contract_for_fa(
            &fa,
            "Foobar 2023 License".to_owned(),
            date(2023, 7, 1),
            &buyer,
            &seller,
        )
        .unwrap();
    assert_eq!(contract.id, 1);
    assert_eq!(contract.buyer_id, 1);
    assert_eq!(contract.seller_id, 2);
    assert_eq!(contract.framework_agreement_id, 1);

    let rows = store.list_contracts_with_details(DEFAULT_LIMIT).unwrap();
    assert_eq!(rows.len(), 1);
    let row = &rows[0];
    assert_eq!(row.contract, contract);
    assert_eq!(row.framework_agreement.id, 1);
    assert_eq!(row.framework_agreement.title, "MSA v1.0");
    assert_eq!(row.buyer.id, 1);
    assert_eq!(row.buyer.name, "Bui Buyer");
    assert_eq!(row.seller.id, 2);
    assert_eq!(row.seller.name, "Shel Seller");
}
