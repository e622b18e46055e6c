use geode_profile::{AccountId, ContractStorage, Error, Profile};

fn acct(n: u8) -> AccountId {
    AccountId::new([n; 32])
}

#[allow(clippy::too_many_arguments)]
fn create_simple(
    store: &mut ContractStorage,
    who: AccountId,
    name: &[u8],
    bio: &[u8],
    private: bool,
    now: u64,
) -> Result<Option<geode_profile::NewProfile>, Error> {
    store.new_profile(
        who,
        name.to_vec(),
        Vec::new(),
        Vec::new(),
        bio.to_vec(),
        Vec::new(),
        Vec::new(),
        Vec::new(),
        Vec::new(),
        AccountId::zero(),
        AccountId::zero(),
        AccountId::zero(),
        AccountId::zero(),
        private,
        now,
    )
}

fn update_simple(
    store: &mut ContractStorage,
    who: AccountId,
    name: &[u8],
    bio: &[u8],
    private: bool,
    now: u64,
) -> Result<Option<geode_profile::ProfileUpdate>, Error> {
    store.update_your_profile(
        who,
        name.to_vec(),
        Vec::new(),
        Vec::new(),
        bio.to_vec(),
        Vec::new(),
        Vec::new(),
        Vec::new(),
        Vec::new(),
        AccountId::zero(),
        AccountId::zero(),
        AccountId::zero(),
        AccountId::zero(),
        private,
        now,
    )
}

#[test]
fn create_then_get_round_trip() {
    let mut store = ContractStorage::new();
    let a = acct(1);
    let r = store.new_profile(
        a,
        b"Ada".to_vec(),
        b"London".to_vec(),
        b"math, engines".to_vec(),
        b"first programmer".to_vec(),
        b"https://example.org/ada.png".to_vec(),
        b"https://example.org".to_vec(),
        b"https://example.net".to_vec(),
        b"https://example.com".to_vec(),
        acct(2),
        acct(3),
        acct(4),
        acct(5),
        false,
        42,
    );
    assert!(r.is_ok());
    let got = store.get_account_profile(a, a);
    assert_eq!(got.len(), 1);
    let p = &got[0];
    assert_eq!(p.account, a);
    assert_eq!(p.display_name, b"Ada".to_vec());
    assert_eq!(p.location, b"London".to_vec());
    assert_eq!(p.tags, b"math, engines".to_vec());
    assert_eq!(p.bio, b"first programmer".to_vec());
    assert_eq!(p.photo_url, b"https://example.org/ada.png".to_vec());
    assert_eq!(p.website_url1, b"https://example.org".to_vec());
    assert_eq!(p.website_url2, b"https://example.net".to_vec());
    assert_eq!(p.website_url3, b"https://example.com".to_vec());
    assert_eq!(p.life_and_work, acct(2));
    assert_eq!(p.social, acct(3));
    assert_eq!(p.private_messaging, acct(4));
    assert_eq!(p.marketplace, acct(5));
    assert!(!p.make_private);
    assert_eq!(p.timestamp, 42);
}

#[test]
fn duplicate_create_rejected_and_store_unchanged() {
    let mut store = ContractStorage::new();
    let a = acct(7);
    assert!(create_simple(&mut store, a, b"first", b"original", false, 1).is_ok());
    let before = store.get_account_profile(a, a);
    let r = create_simple(&mut store, a, b"second", b"overwrite", false, 2);
    assert_eq!(r, Err(Error::DuplicateProfile));
    let after = store.get_account_profile(a, a);
    assert_eq!(before, after);
    assert_eq!(store.list_known_accounts().len(), 1);
}

#[test]
fn update_without_profile_not_found() {
    let mut store = ContractStorage::new();
    let a = acct(9);
    let r = update_simple(&mut store, a, b"name", b"bio", false, 5);
    assert_eq!(r, Err(Error::NotFound));
    assert_eq!(store.list_known_accounts().len(), 0);
    assert_eq!(store.verify_account(a), 0);
}

#[test]
fn update_overwrites_in_place() {
    let mut store = ContractStorage::new();
    let a = acct(3);
    assert!(create_simple(&mut store, a, b"old name", b"old bio", false, 1).is_ok());
    let r = update_simple(&mut store, a, b"new name", b"new bio", false, 2);
    assert!(r.is_ok());
    let got = store.get_account_profile(a, a);
    assert_eq!(got.len(), 1);
    assert_eq!(got[0].display_name, b"new name".to_vec());
    assert_eq!(got[0].bio, b"new bio".to_vec());
    assert_eq!(got[0].timestamp, 2);
    assert_eq!(store.list_known_accounts().len(), 1);
}

#[test]
fn oversized_fields_rejected() {
    let mut store = ContractStorage::new();
    let a = acct(11);
    let cases: Vec<(usize, usize)> = vec![
        (0, 180),
        (1, 200),
        (2, 600),
        (3, 1200),
        (4, 300),
        (5, 100),
        (6, 100),
        (7, 100),
    ];
    for (slot, max) in cases {
        let mut fields: Vec<Vec<u8>> = vec![Vec::new(); 8];
        fields[slot] = vec![b'x'; max + 1];
        let r = store.new_profile(
            a,
            fields[0].clone(),
            fields[1].clone(),
            fields[2].clone(),
            fields[3].clone(),
            fields[4].clone(),
            fields[5].clone(),
            fields[6].clone(),
            fields[7].clone(),
            AccountId::zero(),
            AccountId::zero(),
            AccountId::zero(),
            AccountId::zero(),
            false,
            0,
        );
        assert_eq!(r, Err(Error::FieldTooLarge));
        assert_eq!(store.list_known_accounts().len(), 0);
        assert_eq!(store.verify_account(a), 0);
    }
}

#[test]
fn oversized_field_at_ceiling_accepted() {
    let mut store = ContractStorage::new();
    let a = acct(12);
    let r = store.new_profile(
        a,
        vec![b'n'; 180],
        vec![b'l'; 200],
        vec![b't'; 600],
        vec![b'b'; 1200],
        vec![b'p'; 300],
        vec![b'u'; 100],
        vec![b'v'; 100],
        vec![b'w'; 100],
        AccountId::zero(),
        AccountId::zero(),
        AccountId::zero(),
        AccountId::zero(),
        false,
        0,
    );
    assert!(r.is_ok());
    assert_eq!(store.verify_account(a), 1);
}

#[test]
fn oversized_update_leaves_profile_unchanged() {
    let mut store = ContractStorage::new();
    let a = acct(13);
    assert!(create_simple(&mut store, a, b"keep", b"kept bio", false, 1).is_ok());
    let r = update_simple(&mut store, a, b"x", &vec![b'y'; 1201], false, 2);
    assert_eq!(r, Err(Error::FieldTooLarge));
    let got = store.get_account_profile(a, a);
    assert_eq!(got.len(), 1);
    assert_eq!(got[0].display_name, b"keep".to_vec());
    assert_eq!(got[0].bio, b"kept bio".to_vec());
    assert_eq!(got[0].timestamp, 1);
}

#[test]
fn put_rejects_record_over_capacity() {
    let mut store = ContractStorage::new();
    let huge = Profile {
        account: acct(20),
        display_name: Vec::new(),
        location: Vec::new(),
        tags: Vec::new(),
        bio: vec![b'z'; 20000],
        photo_url: Vec::new(),
        website_url1: Vec::new(),
        website_url2: Vec::new(),
        website_url3: Vec::new(),
        life_and_work: AccountId::zero(),
        social: AccountId::zero(),
        private_messaging: AccountId::zero(),
        marketplace: AccountId::zero(),
        make_private: false,
        timestamp: 0,
    };
    assert_eq!(store.put(huge), Err(Error::StorageFull));
    assert_eq!(store.list_known_accounts().len(), 0);
}

#[test]
fn put_stores_unvalidated_record_within_capacity() {
    let mut store = ContractStorage::new();
    let a = acct(21);
    let p = Profile {
        account: a,
        display_name: b"direct".to_vec(),
        location: Vec::new(),
        tags: Vec::new(),
        bio: Vec::new(),
        photo_url: Vec::new(),
        website_url1: Vec::new(),
        website_url2: Vec::new(),
        website_url3: Vec::new(),
        life_and_work: AccountId::zero(),
        social: AccountId::zero(),
        private_messaging: AccountId::zero(),
        marketplace: AccountId::zero(),
        make_private: false,
        timestamp: 3,
    };
    assert_eq!(store.put(p), Ok(()));
    assert_eq!(store.verify_account(a), 1);
    assert_eq!(store.list_known_accounts().len(), 1);
}

#[test]
fn create_event_announces_public_profile() {
    let mut store = ContractStorage::new();
    let a = acct(30);
    let r = create_simple(&mut store, a, b"loud", b"hello", false, 9);
    let ev = r.expect("create succeeds").expect("public create emits");
    assert_eq!(ev.account, a);
    assert_eq!(ev.display_name, b"loud".to_vec());
    assert_eq!(ev.bio, b"hello".to_vec());
}

#[test]
fn private_create_emits_no_event() {
    let mut store = ContractStorage::new();
    let a = acct(31);
    let r = create_simple(&mut store, a, b"quiet", b"hidden", true, 9);
    assert_eq!(r.expect("create succeeds"), None);
}

#[test]
fn update_event_follows_privacy_flag() {
    let mut store = ContractStorage::new();
    let a = acct(32);
    assert!(create_simple(&mut store, a, b"n", b"b", false, 1).is_ok());
    let hidden = update_simple(&mut store, a, b"n2", b"b2", true, 2);
    assert_eq!(hidden.expect("update succeeds"), None);
    let public = update_simple(&mut store, a, b"n3", b"b3", false, 3);
    let ev = public.expect("update succeeds").expect("public update emits");
    assert_eq!(ev.account, a);
    assert_eq!(ev.display_name, b"n3".to_vec());
    assert_eq!(ev.bio, b"b3".to_vec());
}

#[test]
fn default_profile_is_all_empty() {
    let p = Profile::default();
    assert_eq!(p.account, AccountId::zero());
    assert!(p.display_name.is_empty());
    assert!(p.location.is_empty());
    assert!(p.tags.is_empty());
    assert!(p.bio.is_empty());
    assert!(p.photo_url.is_empty());
    assert!(p.website_url1.is_empty());
    assert!(p.website_url2.is_empty());
    assert!(p.website_url3.is_empty());
    assert_eq!(p.life_and_work, AccountId::zero());
    assert_eq!(p.social, AccountId::zero());
    assert_eq!(p.private_messaging, AccountId::zero());
    assert_eq!(p.marketplace, AccountId::zero());
    assert!(!p.make_private);
    assert_eq!(p.timestamp, 0);
}

#[test]
fn verify_account_is_zero_or_one() {
    let mut store = ContractStorage::new();
    let a = acct(40);
    let b = acct(41);
    assert_eq!(store.verify_account(a), 0);
    assert!(create_simple(&mut store, a, b"", b"", true, 0).is_ok());
    assert_eq!(store.verify_account(a), 1);
    assert_eq!(store.verify_account(b), 0);
}
