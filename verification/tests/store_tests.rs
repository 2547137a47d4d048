use karcis::amenity::{
    all_amenities_response, amenity_by_id_response, AmenityStore, CreateAmenity, UpdateAmenity,
};
use karcis::balance::{BalanceStore, UpdateBalance};
use karcis::errors::DbError;
use karcis::models::Profile;
use karcis::token::TokenStore;
use karcis::user_repository::{LookupField, UserRepository};

#[test]
fn balance_increase_writes_one_history_row_with_the_delta() {
    let mut store = BalanceStore::new();
    let opened = store.create(7, 100);
    assert_eq!(opened.balance, 0);

    let (before, row) = store
        .update_balance(opened.id, &UpdateBalance { balance: 500 }, 101)
        .expect("the row exists");
    assert_eq!(before.balance, 0);
    assert_eq!(store.histories.len(), 1);
    assert_eq!(row.top_up, 500);
    assert_eq!(row.balance, 0);
    assert_eq!(row.user_id, 7);
    assert_eq!(row.balance_id, opened.id);
    assert_eq!(store.get(opened.id).unwrap().balance, 500);
}

#[test]
fn balance_decrease_writes_zero_top_up() {
    let mut store = BalanceStore::new();
    let opened = store.create(7, 100);
    store
        .update_balance(opened.id, &UpdateBalance { balance: 500 }, 101)
        .unwrap();
    let (_, row) = store
        .update_balance(opened.id, &UpdateBalance { balance: 300 }, 102)
        .expect("the row exists");
    assert_eq!(row.top_up, 0);
    assert_eq!(row.balance, 500);
    assert_eq!(store.histories.len(), 2);
    assert_eq!(store.get(opened.id).unwrap().balance, 300);
}

#[test]
fn balance_update_of_missing_row_changes_nothing() {
    let mut store = BalanceStore::new();
    store.create(7, 100);
    let r = store.update_balance(999, &UpdateBalance { balance: 10 }, 101);
    assert!(matches!(r, Err(DbError::RowNotFound)));
    assert_eq!(store.histories.len(), 0);
}

#[test]
fn balance_history_is_per_user_and_append_only() {
    let mut store = BalanceStore::new();
    let a = store.create(1, 0);
    let b = store.create(2, 0);
    store
        .update_balance(a.id, &UpdateBalance { balance: 10 }, 1)
        .unwrap();
    store
        .update_balance(b.id, &UpdateBalance { balance: 20 }, 2)
        .unwrap();
    store
        .update_balance(a.id, &UpdateBalance { balance: 15 }, 3)
        .unwrap();
    let rows = store.get_history_by_user(1);
    assert_eq!(rows.len(), 2);
    assert_eq!(rows[0].top_up, 10);
    assert_eq!(rows[1].top_up, 5);
}

#[test]
fn token_revocation_never_reverts() {
    let mut tokens = TokenStore::new();
    tokens.create("one", 1);
    tokens.create("two", 2);
    assert_eq!(tokens.revoke_token("one", 3), 1);
    assert!(tokens.is_token_revoked("one"));
    assert!(!tokens.is_token_revoked("two"));

    // revoking again reports the same row and leaves it revoked
    assert_eq!(tokens.revoke_token("one", 4), 1);
    assert!(tokens.is_token_revoked("one"));

    // an unknown token touches nothing
    assert_eq!(tokens.revoke_token("three", 5), 0);
    assert!(tokens.is_token_revoked("one"));
    assert!(!tokens.is_token_revoked("two"));
}

#[test]
fn user_lookup_by_field_enumeration() {
    let mut repo = UserRepository::new();
    let mut balances = BalanceStore::new();
    let p = karcis::models::RegisterPayload {
        first_name: "Fay".to_string(),
        last_name: "F".to_string(),
        username: "fay".to_string(),
        email: "fay@x.com".to_string(),
        password: "pw".to_string(),
        phone: "1234567890".to_string(),
        title: "t".to_string(),
        image: "i".to_string(),
    };
    karcis::auth_flow::register(&mut repo, &mut balances, &p, 0, 3600).expect("registration");

    assert!(repo.find_by(LookupField::Username, "fay").is_some());
    assert!(repo.find_by(LookupField::Email, "fay@x.com").is_some());
    assert!(repo.find_by(LookupField::Username, "fay@x.com").is_none());
    assert!(repo.find_by(LookupField::Email, "fay").is_none());
}

#[test]
fn user_update_rewrites_identity_fields() {
    let mut repo = UserRepository::new();
    let mut balances = BalanceStore::new();
    let p = karcis::models::RegisterPayload {
        first_name: "Old".to_string(),
        last_name: "Name".to_string(),
        username: "older".to_string(),
        email: "old@x.com".to_string(),
        password: "pw".to_string(),
        phone: "1234567890".to_string(),
        title: "t".to_string(),
        image: "i".to_string(),
    };
    let (user, _, _) =
        karcis::auth_flow::register(&mut repo, &mut balances, &p, 0, 3600).expect("registration");

    let profile = Profile {
        id: user.id,
        first_name: "New".to_string(),
        last_name: "Name".to_string(),
        username: "newer".to_string(),
        email: "new@x.com".to_string(),
        phone: "1234567891".to_string(),
        title: "t2".to_string(),
        image: "i2".to_string(),
        role_id: user.role_id,
    };
    let updated = repo.update(&profile).expect("the record exists");
    assert_eq!(updated.username, "newer");
    assert_eq!(updated.password_hash, user.password_hash);
    assert!(repo.find_by_username("older").is_none());
    assert!(repo.find_by_username("newer").is_some());

    let missing = Profile {
        id: 999,
        username: "ghost".to_string(),
        email: "ghost@x.com".to_string(),
        ..profile
    };
    assert!(matches!(repo.update(&missing), Err(DbError::RowNotFound)));

    // a username another active user holds is a unique violation
    let clash = Profile {
        id: user.id,
        username: "newer".to_string(),
        email: "new@x.com".to_string(),
        ..missing
    };
    assert!(repo.update(&clash).is_ok()); // same record may keep its own name
}

#[test]
fn user_find_all_skips_soft_deleted() {
    let mut repo = UserRepository::new();
    let mut balances = BalanceStore::new();
    for (name, mail) in [("ga", "ga@x.com"), ("gb", "gb@x.com")] {
        let p = karcis::models::RegisterPayload {
            first_name: "G".to_string(),
            last_name: "G".to_string(),
            username: name.to_string(),
            email: mail.to_string(),
            password: "pw".to_string(),
            phone: "1234567890".to_string(),
            title: "t".to_string(),
            image: "i".to_string(),
        };
        karcis::auth_flow::register(&mut repo, &mut balances, &p, 0, 3600).expect("registration");
    }
    assert_eq!(repo.find_all().len(), 2);
    let ga = repo.find_by_username("ga").unwrap();
    assert!(repo.delete(ga.id, 9));
    let remaining = repo.find_all();
    assert_eq!(remaining.len(), 1);
    assert_eq!(remaining[0].username, "gb");
    // deleting twice touches nothing
    assert!(!repo.delete(ga.id, 10));
}

#[test]
fn amenity_lifecycle() {
    let mut store = AmenityStore::new();
    let created = store.create(&CreateAmenity {
        name: "Pool".to_string(),
        description: "Open air".to_string(),
        icon: None,
    });
    assert_eq!(created.name, "Pool");

    let updated = store
        .update(&UpdateAmenity {
            id: created.id,
            name: "Heated pool".to_string(),
            description: "Open air".to_string(),
            icon: Some("pool.svg".to_string()),
        })
        .expect("the amenity exists");
    assert_eq!(updated.name, "Heated pool");
    assert_eq!(updated.icon.as_deref(), Some("pool.svg"));

    assert_eq!(store.get_all().len(), 1);
    assert_eq!(store.delete(created.id), 1);
    assert_eq!(store.get_all().len(), 0);
    assert_eq!(store.delete(created.id), 0);
}

#[test]
fn amenity_missing_id_answers_404_with_empty_data() {
    let store = AmenityStore::new();
    let (status, resp) = amenity_by_id_response(store.find_by_id(12345));
    assert_eq!(status, 404);
    assert!(!resp.success);
    assert!(resp.data.is_none());
    assert_eq!(resp.message, "Amenity not found.");
}

#[test]
fn amenity_found_id_answers_200() {
    let mut store = AmenityStore::new();
    let created = store.create(&CreateAmenity {
        name: "Gym".to_string(),
        description: "24h".to_string(),
        icon: None,
    });
    let (status, resp) = amenity_by_id_response(store.find_by_id(created.id));
    assert_eq!(status, 200);
    assert!(resp.success);
    assert_eq!(resp.data.unwrap().name, "Gym");

    let (status, resp) = all_amenities_response(store.get_all());
    assert_eq!(status, 200);
    assert_eq!(resp.data.unwrap().len(), 1);
}
