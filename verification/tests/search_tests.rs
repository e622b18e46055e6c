use geode_profile::{AccountId, ContractStorage, Error, NewProfile};

fn acct(n: u8) -> AccountId {
    AccountId::new([n; 32])
}

#[allow(clippy::too_many_arguments)]
fn create_with(
    store: &mut ContractStorage,
    who: AccountId,
    name: &[u8],
    location: &[u8],
    tags: &[u8],
    bio: &[u8],
    social: AccountId,
    private: bool,
) -> Result<Option<NewProfile>, Error> {
    store.new_profile(
        who,
        name.to_vec(),
        location.to_vec(),
        tags.to_vec(),
        bio.to_vec(),
        Vec::new(),
        Vec::new(),
        Vec::new(),
        Vec::new(),
        AccountId::zero(),
        social,
        AccountId::zero(),
        AccountId::zero(),
        private,
        0,
    )
}

fn keywords(store: &ContractStorage, t1: &[u8], t2: &[u8], t3: &[u8]) -> Vec<AccountId> {
    store
        .get_matching_profiles_by_keyword(t1.to_vec(), t2.to_vec(), t3.to_vec())
        .iter()
        .map(|p| p.account)
        .collect()
}

#[test]
fn keyword_search_finds_public_match() {
    let mut store = ContractStorage::new();
    let a = acct(1);
    assert!(create_with(&mut store, a, b"", b"", b"", b"engineer", AccountId::zero(), false).is_ok());
    assert_eq!(keywords(&store, b"engineer", b"", b""), vec![a]);
}

#[test]
fn keyword_search_needs_every_term() {
    let mut store = ContractStorage::new();
    let a = acct(2);
    assert!(
        create_with(&mut store, a, b"Grace", b"Arlington", b"compilers", b"navy", AccountId::zero(), false)
            .is_ok()
    );
    assert_eq!(keywords(&store, b"Grace", b"compilers", b"navy"), vec![a]);
    assert_eq!(keywords(&store, b"Grace", b"paris", b""), Vec::<AccountId>::new());
}

#[test]
fn keyword_search_is_case_sensitive_substring() {
    let mut store = ContractStorage::new();
    let a = acct(3);
    assert!(create_with(&mut store, a, b"", b"", b"", b"Rustacean", AccountId::zero(), false).is_ok());
    assert_eq!(keywords(&store, b"stace", b"", b""), vec![a]);
    assert_eq!(keywords(&store, b"rustacean", b"", b""), Vec::<AccountId>::new());
}

#[test]
fn hidden_profile_left_out_of_search_and_lookup() {
    let mut store = ContractStorage::new();
    let a = acct(4);
    let b = acct(5);
    assert!(create_with(&mut store, a, b"", b"", b"", b"engineer", AccountId::zero(), false).is_ok());
    assert_eq!(keywords(&store, b"engineer", b"", b""), vec![a]);
    let r = store.update_your_profile(
        a,
        Vec::new(),
        Vec::new(),
        Vec::new(),
        b"engineer".to_vec(),
        Vec::new(),
        Vec::new(),
        Vec::new(),
        Vec::new(),
        AccountId::zero(),
        AccountId::zero(),
        AccountId::zero(),
        AccountId::zero(),
        true,
        1,
    );
    assert!(r.is_ok());
    assert_eq!(keywords(&store, b"engineer", b"", b""), Vec::<AccountId>::new());
    let own = store.get_account_profile(a, a);
    assert_eq!(own.len(), 1);
    assert_eq!(own[0].bio, b"engineer".to_vec());
    let other = store.get_account_profile(b, a);
    assert!(other.is_empty());
    assert!(store.get_matching_profiles_by_account(a).is_empty());
}

#[test]
fn public_profile_visible_to_third_parties() {
    let mut store = ContractStorage::new();
    let a = acct(18);
    let b = acct(19);
    assert!(create_with(&mut store, a, b"open", b"", b"", b"", AccountId::zero(), false).is_ok());
    let seen = store.get_account_profile(b, a);
    assert_eq!(seen.len(), 1);
    assert_eq!(seen[0].display_name, b"open".to_vec());
}

#[test]
fn lookup_of_missing_profile_is_empty() {
    let store = ContractStorage::new();
    let a = acct(6);
    assert!(store.get_account_profile(a, a).is_empty());
}

#[test]
fn reference_search_finds_owner_and_cross_reference() {
    let mut store = ContractStorage::new();
    let a = acct(7);
    let b = acct(8);
    assert!(create_with(&mut store, b, b"", b"", b"", b"", a, false).is_ok());
    let hits = store.get_matching_profiles_by_account(a);
    assert_eq!(hits.len(), 1);
    assert_eq!(hits[0].account, b);
    assert!(create_with(&mut store, a, b"", b"", b"", b"", AccountId::zero(), false).is_ok());
    let hits = store.get_matching_profiles_by_account(a);
    assert_eq!(hits.len(), 2);
    assert_eq!(hits[0].account, b);
    assert_eq!(hits[1].account, a);
}

#[test]
fn invalid_utf8_field_counts_as_empty_text() {
    let mut store = ContractStorage::new();
    let a = acct(9);
    let bad_bio = vec![0xFF, b'a', b'b'];
    assert!(store
        .new_profile(
            a,
            Vec::new(),
            Vec::new(),
            Vec::new(),
            bad_bio,
            Vec::new(),
            Vec::new(),
            Vec::new(),
            Vec::new(),
            AccountId::zero(),
            AccountId::zero(),
            AccountId::zero(),
            AccountId::zero(),
            false,
            0,
        )
        .is_ok());
    assert_eq!(keywords(&store, b"ab", b"", b""), Vec::<AccountId>::new());
    assert_eq!(keywords(&store, b"", b"", b""), vec![a]);
}

#[test]
fn invalid_utf8_keyword_matches_everything() {
    let mut store = ContractStorage::new();
    let a = acct(10);
    assert!(create_with(&mut store, a, b"", b"", b"", b"anything", AccountId::zero(), false).is_ok());
    let bad_term = vec![0xC0u8];
    assert_eq!(
        store
            .get_matching_profiles_by_keyword(bad_term, Vec::new(), Vec::new())
            .len(),
        1
    );
}

#[test]
fn search_preserves_creation_order() {
    let mut store = ContractStorage::new();
    let ids = [acct(11), acct(12), acct(13)];
    for (k, id) in ids.iter().enumerate() {
        assert!(create_with(
            &mut store,
            *id,
            b"",
            b"",
            b"",
            format!("common {k}").as_bytes(),
            AccountId::zero(),
            false
        )
        .is_ok());
    }
    assert_eq!(keywords(&store, b"common", b"", b""), ids.to_vec());
}

#[test]
fn known_accounts_in_creation_order_without_duplicates() {
    let mut store = ContractStorage::new();
    let ids = [acct(14), acct(15), acct(16)];
    for id in ids {
        assert!(create_with(&mut store, id, b"", b"", b"", b"", AccountId::zero(), false).is_ok());
    }
    assert_eq!(store.list_known_accounts(), ids.to_vec());
    let r = store.update_your_profile(
        acct(15),
        b"renamed".to_vec(),
        Vec::new(),
        Vec::new(),
        Vec::new(),
        Vec::new(),
        Vec::new(),
        Vec::new(),
        Vec::new(),
        AccountId::zero(),
        AccountId::zero(),
        AccountId::zero(),
        AccountId::zero(),
        false,
        2,
    );
    assert!(r.is_ok());
    assert_eq!(store.list_known_accounts(), ids.to_vec());
}

#[test]
fn empty_store_searches_are_empty() {
    let store = ContractStorage::new();
    assert!(store
        .get_matching_profiles_by_keyword(Vec::new(), Vec::new(), Vec::new())
        .is_empty());
    assert!(store.get_matching_profiles_by_account(acct(17)).is_empty());
    assert!(store.list_known_accounts().is_empty());
}
