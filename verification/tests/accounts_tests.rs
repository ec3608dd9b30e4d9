use accounts_api::accounts::AccountDB;
use accounts_api::errors::ActixError;
use accounts_api::hasher::hash_password;
use accounts_api::models::Account;

fn account(id: u64, username: &str, password: &str) -> Account {
    Account { id, username: username.to_string(), password: hash_password(username, password) }
}

fn names(store: &AccountDB) -> Vec<String> {
    store.get_accounts().iter().map(|a| a.username.clone()).collect()
}

#[test]
fn new_store_is_empty() {
    let store = AccountDB::new();
    assert!(store.get_accounts().is_empty());
    assert!(!store.is_exist("bob"));
    assert!(store.list(0, 10).is_empty());
}

#[test]
fn add_account_appends_in_insertion_order() {
    let mut store = AccountDB::new();
    assert_eq!(store.add_account(account(3, "carol", "c")), Ok(()));
    assert_eq!(store.add_account(account(1, "alice", "a")), Ok(()));
    assert_eq!(store.add_account(account(2, "bob", "b")), Ok(()));
    assert_eq!(names(&store), vec!["carol", "alice", "bob"]);
    let ids: Vec<u64> = store.get_accounts().iter().map(|a| a.id).collect();
    assert_eq!(ids, vec![3, 1, 2]);
}

#[test]
fn add_account_refuses_a_taken_name_and_leaves_the_store() {
    let mut store = AccountDB::new();
    assert_eq!(store.add_account(account(1, "bob", "pw")), Ok(()));
    assert_eq!(store.add_account(account(2, "bob", "other")), Err(ActixError::SameAccountName));
    assert_eq!(store.get_accounts().len(), 1);
    let kept = &store.get_accounts()[0];
    assert_eq!(kept.id, 1);
    assert_eq!(kept.username, "bob");
    assert_eq!(kept.password, hash_password("bob", "pw"));
    assert_eq!(store.add_account(account(3, "bob", "pw")), Err(ActixError::SameAccountName));
    assert_eq!(store.get_accounts().len(), 1);
}

#[test]
fn add_account_matches_names_letter_for_letter() {
    let mut store = AccountDB::new();
    assert_eq!(store.add_account(account(1, "bob", "pw")), Ok(()));
    assert_eq!(store.add_account(account(2, "Bob", "pw")), Ok(()));
    assert_eq!(store.add_account(account(3, "bob ", "pw")), Ok(()));
    assert_eq!(store.add_account(account(4, "", "pw")), Ok(()));
    assert_eq!(store.add_account(account(5, "", "pw")), Err(ActixError::SameAccountName));
    assert_eq!(names(&store), vec!["bob", "Bob", "bob ", ""]);
}

#[test]
fn add_account_does_not_look_at_numbers() {
    let mut store = AccountDB::new();
    assert_eq!(store.add_account(account(1, "bob", "pw")), Ok(()));
    assert_eq!(store.add_account(account(1, "alice", "pw")), Ok(()));
    assert_eq!(store.get_account(1).unwrap().username, "bob");
}

#[test]
fn no_sequence_of_adds_makes_two_accounts_share_a_name() {
    let mut store = AccountDB::new();
    let offered = ["a", "b", "a", "c", "b", "a", "d", "c", "e", "e"];
    let mut id: u64 = 0;
    for name in offered {
        id += 1;
        let taken = store.is_exist(name);
        let outcome = store.add_account(account(id, name, "pw"));
        assert_eq!(outcome.is_err(), taken);
        let held = names(&store);
        for i in 0..held.len() {
            for j in (i + 1)..held.len() {
                assert_ne!(held[i], held[j]);
            }
        }
    }
    assert_eq!(names(&store), vec!["a", "b", "c", "d", "e"]);
}

#[test]
fn get_account_finds_by_number() {
    let mut store = AccountDB::new();
    store.add_account(account(10, "alice", "a")).unwrap();
    store.add_account(account(20, "bob", "b")).unwrap();
    let found = store.get_account(20).unwrap();
    assert_eq!(found.id, 20);
    assert_eq!(found.username, "bob");
    assert_eq!(found.password, hash_password("bob", "b"));
    assert_eq!(store.get_account(10).unwrap().username, "alice");
}

#[test]
fn get_account_of_unknown_number_is_not_found() {
    let mut store = AccountDB::new();
    assert_eq!(store.get_account(1).err(), Some(ActixError::NotFound));
    store.add_account(account(10, "alice", "a")).unwrap();
    assert_eq!(store.get_account(11).err(), Some(ActixError::NotFound));
    assert_eq!(store.get_account(0).err(), Some(ActixError::NotFound));
}

#[test]
fn lookups_hand_out_copies() {
    let mut store = AccountDB::new();
    store.add_account(account(1, "alice", "a")).unwrap();
    let mut copy = store.get_account(1).unwrap();
    copy.username.push_str("-changed");
    copy.password.clear();
    copy.id = 99;
    let again = store.get_account(1).unwrap();
    assert_eq!(again.username, "alice");
    assert_eq!(again.password, hash_password("alice", "a"));
    let mut by_name = store.get_account_by_username("alice").unwrap();
    by_name.username.clear();
    assert!(store.is_exist("alice"));
    let mut listed = store.list(0, 1);
    listed[0].username.clear();
    assert_eq!(store.get_accounts()[0].username, "alice");
}

#[test]
fn get_account_by_username_finds_by_exact_name() {
    let mut store = AccountDB::new();
    store.add_account(account(10, "alice", "a")).unwrap();
    store.add_account(account(20, "bob", "b")).unwrap();
    let found = store.get_account_by_username("bob").unwrap();
    assert_eq!(found.id, 20);
    assert_eq!(found.username, "bob");
    assert_eq!(store.get_account_by_username("Bob").err(), Some(ActixError::NotFound));
    assert_eq!(store.get_account_by_username("bo").err(), Some(ActixError::NotFound));
    assert_eq!(store.get_account_by_username("").err(), Some(ActixError::NotFound));
}

#[test]
fn is_exist_tells_taken_names() {
    let mut store = AccountDB::new();
    store.add_account(account(1, "alice", "a")).unwrap();
    assert!(store.is_exist("alice"));
    assert!(!store.is_exist("ALICE"));
    assert!(!store.is_exist("alice "));
    assert!(!store.is_exist("bob"));
}

#[test]
fn update_username_then_get_by_id_round_trip() {
    let mut store = AccountDB::new();
    store.add_account(account(1, "alice", "pw")).unwrap();
    store.add_account(account(2, "bob", "pw")).unwrap();
    let digest_before = store.get_account(1).unwrap().password;
    let updated = store.update_username(1, "alice2").unwrap();
    assert_eq!(updated.id, 1);
    assert_eq!(updated.username, "alice2");
    assert_eq!(updated.password, digest_before);
    let found = store.get_account(1).unwrap();
    assert_eq!(found.username, "alice2");
    assert_eq!(found.password, digest_before);
    assert_eq!(found.password, hash_password("alice", "pw"));
    assert_eq!(names(&store), vec!["alice2", "bob"]);
    assert!(!store.is_exist("alice"));
    assert_eq!(store.get_account_by_username("alice2").unwrap().id, 1);
}

#[test]
fn update_username_of_unknown_number_is_not_found() {
    let mut store = AccountDB::new();
    store.add_account(account(1, "alice", "pw")).unwrap();
    assert_eq!(store.update_username(2, "bob").err(), Some(ActixError::NotFound));
    assert_eq!(names(&store), vec!["alice"]);
}

#[test]
fn update_username_does_not_check_uniqueness() {
    let mut store = AccountDB::new();
    store.add_account(account(1, "alice", "pw")).unwrap();
    store.add_account(account(2, "bob", "pw")).unwrap();
    let updated = store.update_username(2, "alice").unwrap();
    assert_eq!(updated.username, "alice");
    assert_eq!(names(&store), vec!["alice", "alice"]);
    assert_eq!(store.get_account_by_username("alice").unwrap().id, 1);
}

#[test]
fn update_username_renames_the_first_of_a_number() {
    let mut store = AccountDB::new();
    store.add_account(account(7, "first", "pw")).unwrap();
    store.add_account(account(7, "second", "pw")).unwrap();
    store.update_username(7, "renamed").unwrap();
    assert_eq!(names(&store), vec!["renamed", "second"]);
}

#[test]
fn verify_credentials_accepts_only_the_matching_password() {
    let mut store = AccountDB::new();
    store.add_account(account(1, "bob", "pw")).unwrap();
    assert!(store.verify_credentials("bob", "pw"));
    assert!(!store.verify_credentials("bob", "wrong"));
    assert!(!store.verify_credentials("bob", ""));
    assert!(!store.verify_credentials("bob", "PW"));
}

#[test]
fn verify_credentials_is_false_for_unknown_names() {
    let mut store = AccountDB::new();
    assert!(!store.verify_credentials("bob", "pw"));
    store.add_account(account(1, "bob", "pw")).unwrap();
    assert!(!store.verify_credentials("alice", "pw"));
    assert!(!store.verify_credentials("", ""));
}

#[test]
fn verify_credentials_compares_with_the_stored_digest() {
    let mut store = AccountDB::new();
    store
        .add_account(Account {
            id: 1,
            username: "bob".to_string(),
            password: "98520def4e61e3d0918a800d68bfe77b".to_string(),
        })
        .unwrap();
    store.add_account(Account { id: 2, username: "eve".to_string(), password: "pw".to_string() }).unwrap();
    assert!(store.verify_credentials("bob", "pw"));
    assert!(!store.verify_credentials("eve", "pw"));
}

#[test]
fn verify_credentials_after_rename_uses_the_new_name_in_the_digest() {
    let mut store = AccountDB::new();
    store.add_account(account(1, "alice", "pw")).unwrap();
    store.update_username(1, "alice2").unwrap();
    assert!(!store.verify_credentials("alice", "pw"));
    assert!(!store.verify_credentials("alice2", "pw"));
}

#[test]
fn list_returns_pages_in_stored_order() {
    let mut store = AccountDB::new();
    for (i, name) in ["a", "b", "c", "d", "e"].iter().enumerate() {
        store.add_account(account(i as u64 + 1, name, "pw")).unwrap();
    }
    let page_names = |offset: usize, limit: usize| -> Vec<String> {
        store.list(offset, limit).iter().map(|a| a.username.clone()).collect()
    };
    assert_eq!(page_names(0, 2), vec!["a", "b"]);
    assert_eq!(page_names(2, 2), vec!["c", "d"]);
    assert_eq!(page_names(4, 2), vec!["e"]);
    assert_eq!(page_names(0, 5), vec!["a", "b", "c", "d", "e"]);
    assert_eq!(page_names(0, 100), vec!["a", "b", "c", "d", "e"]);
    assert_eq!(page_names(1, usize::MAX), vec!["b", "c", "d", "e"]);
    assert!(page_names(5, 2).is_empty());
    assert!(page_names(6, 2).is_empty());
    assert!(page_names(usize::MAX, usize::MAX).is_empty());
    assert!(page_names(0, 0).is_empty());
    assert!(page_names(3, 0).is_empty());
}

#[test]
fn add_accounts_of_distinct_names_all_succeed() {
    let mut store = AccountDB::new();
    let count: u64 = 50;
    let new_accounts: Vec<Account> = (1..=count).map(|i| account(i, &format!("user{}", i), "pw")).collect();
    assert_eq!(store.add_accounts(new_accounts), Ok(()));
    assert_eq!(store.get_accounts().len(), 50);
    for i in 1..=count {
        let found = store.get_account_by_username(&format!("user{}", i)).unwrap();
        assert_eq!(found.id, i);
    }
}

#[test]
fn distinct_adds_one_by_one_are_each_reachable() {
    let mut store = AccountDB::new();
    let count: u64 = 64;
    for i in (1..=count).rev() {
        assert_eq!(store.add_account(account(i, &format!("n{}", i), "pw")), Ok(()));
    }
    assert_eq!(store.get_accounts().len(), 64);
    for i in 1..=count {
        assert_eq!(store.get_account_by_username(&format!("n{}", i)).unwrap().id, i);
    }
}

#[test]
fn add_accounts_stops_at_the_first_taken_name() {
    let mut store = AccountDB::new();
    store.add_account(account(1, "alice", "pw")).unwrap();
    let outcome = store.add_accounts(vec![
        account(2, "bob", "pw"),
        account(3, "carol", "pw"),
        account(4, "bob", "pw"),
        account(5, "dave", "pw"),
    ]);
    assert_eq!(outcome, Err(ActixError::SameAccountName));
    assert_eq!(names(&store), vec!["alice", "bob", "carol"]);
}

#[test]
fn add_accounts_of_nothing_changes_nothing() {
    let mut store = AccountDB::new();
    store.add_account(account(1, "alice", "pw")).unwrap();
    assert_eq!(store.add_accounts(Vec::new()), Ok(()));
    assert_eq!(names(&store), vec!["alice"]);
}

#[test]
fn account_clone_keeps_every_field() {
    let source = account(5, "eve", "pw");
    let copy = source.clone();
    assert_eq!(copy.id, 5);
    assert_eq!(copy.username, "eve");
    assert_eq!(copy.password, source.password);
}
