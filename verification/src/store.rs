//! The record store, the account index, and every operation on them.
//!
//! The store is the single source of truth: one record per account, keyed
//! by its owner. The index is append-only and lists every account that has
//! ever created a profile, in order of first creation; searches scan it.
//! Writes validate in full before any mutation, reads never fail, and every
//! read path applies the privacy filter.

use vstd::prelude::*;
use vstd::pervasive::VecAdditionalExecFns;
use crate::account::AccountId;
use crate::events::{event_of, NewProfile, ProfileUpdate};
use crate::profile::{Profile, ProfileView};
use crate::text::{matches_keywords, profile_matches_term};
use crate::validator::{
    encoded_size, fields_fit, fields_ok, lemma_valid_profile_fits, profile_fits, STORAGE_CAPACITY,
};

verus! {

/// Why a write was rejected. Every error is deterministic in the inputs
/// and the store state; a failed write leaves store and index untouched.
#[derive(Clone, Copy, Debug, PartialEq, Eq, Structural)]
pub enum Error {
    /// A text field exceeds its ceiling.
    FieldTooLarge,
    /// A create for an account that already owns a profile.
    DuplicateProfile,
    /// An update for an account that owns no profile.
    NotFound,
    /// The record would exceed the capacity of the underlying store.
    StorageFull,
}

/// The first position in `profiles` whose record the account owns, or the
/// length of the sequence when no record matches.
pub open spec fn index_of_account(profiles: Seq<ProfileView>, account: Seq<u8>) -> int
    decreases profiles.len(),
{
    if profiles.len() == 0 {
        0
    } else if profiles[0].account == account {
        0
    } else {
        1 + index_of_account(profiles.drop_first(), account)
    }
}

/// True when some record in `profiles` is owned by the account.
pub open spec fn has_profile(profiles: Seq<ProfileView>, account: Seq<u8>) -> bool {
    exists|i: int| 0 <= i < profiles.len() && (#[trigger] profiles[i]).account == account
}

/// The record the account owns, when there is one.
pub open spec fn lookup(profiles: Seq<ProfileView>, account: Seq<u8>) -> Option<ProfileView> {
    if has_profile(profiles, account) {
        Some(profiles[index_of_account(profiles, account)])
    } else {
        None
    }
}

/// What `index_of_account` finds: the first matching position, inside the
/// sequence exactly when the account owns a record.
pub broadcast proof fn lemma_index_of_account(profiles: Seq<ProfileView>, account: Seq<u8>)
    ensures
        0 <= #[trigger] index_of_account(profiles, account) <= profiles.len(),
        index_of_account(profiles, account) < profiles.len() ==> profiles[index_of_account(
            profiles,
            account,
        )].account == account,
        forall|k: int|
            0 <= k < index_of_account(profiles, account) ==> (#[trigger] profiles[k]).account
                != account,
        (index_of_account(profiles, account) < profiles.len()) == has_profile(profiles, account),
    decreases profiles.len(),
{
    if profiles.len() == 0 {
    } else if profiles[0].account == account {
    } else {
        let rest = profiles.drop_first();
        lemma_index_of_account(rest, account);
        assert(forall|k: int| 0 <= k < rest.len() ==> rest[k] == profiles[k + 1]);
        assert forall|k: int|
            0 <= k < index_of_account(profiles, account) implies (#[trigger] profiles[k]).account
            != account by {
            if k > 0 {
                assert(rest[k - 1].account != account);
            }
        }
        if has_profile(profiles, account) {
            let i = choose|i: int|
                0 <= i < profiles.len() && (#[trigger] profiles[i]).account == account;
            assert(rest[i - 1].account == account);
        }
        if has_profile(rest, account) {
            let i = choose|i: int| 0 <= i < rest.len() && (#[trigger] rest[i]).account == account;
            assert(profiles[i + 1].account == account);
        }
    }
}

/// What a point lookup returns: the record when it exists and is either
/// public or asked for by its owner; empty otherwise, so that a hidden and
/// a nonexistent profile look alike to third parties.
pub open spec fn point_lookup(
    profiles: Seq<ProfileView>,
    caller: Seq<u8>,
    account: Seq<u8>,
) -> Seq<ProfileView> {
    match lookup(profiles, account) {
        Some(p) => if !p.make_private || caller == account {
            seq![p]
        } else {
            Seq::empty()
        },
        None => Seq::empty(),
    }
}

/// True when the target account is the owner of the profile or stands in
/// any of its four cross-reference fields.
pub open spec fn references_account(p: ProfileView, account: Seq<u8>) -> bool {
    ||| p.account == account
    ||| p.life_and_work == account
    ||| p.social == account
    ||| p.private_messaging == account
    ||| p.marketplace == account
}

/// The keyword search results over the stored records, in index order: the
/// public profiles that match every term.
pub open spec fn keyword_results(
    profiles: Seq<ProfileView>,
    t1: Seq<u8>,
    t2: Seq<u8>,
    t3: Seq<u8>,
) -> Seq<ProfileView>
    decreases profiles.len(),
{
    if profiles.len() == 0 {
        Seq::empty()
    } else {
        let rest = keyword_results(profiles.drop_last(), t1, t2, t3);
        let p = profiles.last();
        if !p.make_private && matches_keywords(p, t1, t2, t3) {
            rest.push(p)
        } else {
            rest
        }
    }
}

/// The account-reference search results over the stored records, in index
/// order: the public profiles that reference the target account.
pub open spec fn reference_results(profiles: Seq<ProfileView>, account: Seq<u8>) -> Seq<
    ProfileView,
>
    decreases profiles.len(),
{
    if profiles.len() == 0 {
        Seq::empty()
    } else {
        let rest = reference_results(profiles.drop_last(), account);
        let p = profiles.last();
        if !p.make_private && references_account(p, account) {
            rest.push(p)
        } else {
            rest
        }
    }
}

/// The record a write request proposes: the caller as owner, the given
/// field values, and the host-supplied timestamp.
pub open spec fn proposed_profile(
    caller: Seq<u8>,
    display_name: Seq<u8>,
    location: Seq<u8>,
    tags: Seq<u8>,
    bio: Seq<u8>,
    photo_url: Seq<u8>,
    website_url1: Seq<u8>,
    website_url2: Seq<u8>,
    website_url3: Seq<u8>,
    life_and_work: Seq<u8>,
    social: Seq<u8>,
    private_messaging: Seq<u8>,
    marketplace: Seq<u8>,
    make_private: bool,
    timestamp: u64,
) -> ProfileView {
    ProfileView {
        account: caller,
        display_name,
        location,
        tags,
        bio,
        photo_url,
        website_url1,
        website_url2,
        website_url3,
        life_and_work,
        social,
        private_messaging,
        marketplace,
        make_private,
        timestamp,
    }
}

/// The service state: the record store (one entry per account, keyed by the
/// owner) and the append-only index of every account that has ever created
/// a profile, in order of first creation.
pub struct ContractStorage {
    profile_map: Vec<Profile>,
    profile_accounts: Vec<AccountId>,
}

impl ContractStorage {
    /// The stored records, in order of first creation of their owners.
    pub closed spec fn profiles(self) -> Seq<ProfileView> {
        self.profile_map.deep_view()
    }

    /// The account index: every account that has ever created a profile,
    /// in order of first creation.
    pub closed spec fn accounts(self) -> Seq<Seq<u8>> {
        self.profile_accounts.deep_view()
    }

    /// Well-formed state: the index and the store list the same accounts
    /// in the same order, and no account owns two records.
    pub open spec fn wf(self) -> bool {
        &&& self.accounts().len() == self.profiles().len()
        &&& forall|i: int|
            0 <= i < self.profiles().len() ==> (#[trigger] self.accounts()[i])
                == self.profiles()[i].account
        &&& forall|i: int, j: int|
            0 <= i < j < self.profiles().len() ==> (#[trigger] self.profiles()[i]).account != (
            #[trigger] self.profiles()[j]).account
    }

    /// A fresh service with no records and an empty index.
    pub fn new() -> (r: ContractStorage)
        ensures
            r.wf(),
            r.profiles() == Seq::<ProfileView>::empty(),
            r.accounts() == Seq::<Seq<u8>>::empty(),
    {
        let r = ContractStorage { profile_map: Vec::new(), profile_accounts: Vec::new() };
        proof {
            assert(r.profiles() =~= Seq::<ProfileView>::empty());
            assert(r.accounts() =~= Seq::<Seq<u8>>::empty());
        }
        r
    }

    /// The position of the record the account owns, when there is one.
    fn find_account(&self, account: &AccountId) -> (r: Option<usize>)
        ensures
            match r {
                Some(i) => {
                    &&& i < self.profiles().len()
                    &&& self.profiles()[i as int].account == account@
                    &&& forall|k: int|
                        0 <= k < i ==> (#[trigger] self.profiles()[k]).account != account@
                },
                None => !has_profile(self.profiles(), account@),
            },
    {
        let n = self.profile_map.len();
        let mut i: usize = 0;
        while i < n
            invariant
                n == self.profile_map@.len(),
                i <= n,
                forall|k: int|
                    0 <= k < i ==> (#[trigger] self.profiles()[k]).account != account@,
            decreases n - i,
        {
            if self.profile_map[i].account.equals(account) {
                proof {
                    assert(self.profiles()[i as int].account == account@);
                }
                return Some(i);
            }
            i += 1;
        }
        None
    }

    /// True when the account currently owns a record.
    fn contains_account(&self, account: &AccountId) -> (r: bool)
        ensures
            r == has_profile(self.profiles(), account@),
    {
        self.find_account(account).is_some()
    }

    /// Inserts or overwrites the record keyed by its owner. The index
    /// gains the owner exactly when it is new. A record that would exceed
    /// the storage capacity is refused with `StorageFull`, and neither the
    /// store nor the index changes.
    pub fn put(&mut self, profile: Profile) -> (r: Result<(), Error>)
        requires
            old(self).wf(),
        ensures
            final(self).wf(),
            encoded_size(profile@) > STORAGE_CAPACITY ==> ({
                &&& r == Err::<(), Error>(Error::StorageFull)
                &&& final(self).profiles() == old(self).profiles()
                &&& final(self).accounts() == old(self).accounts()
            }),
            encoded_size(profile@) <= STORAGE_CAPACITY ==> r == Ok::<(), Error>(()),
            encoded_size(profile@) <= STORAGE_CAPACITY && has_profile(
                old(self).profiles(),
                profile@.account,
            ) ==> ({
                &&& final(self).profiles() == old(self).profiles().update(
                    index_of_account(old(self).profiles(), profile@.account),
                    profile@,
                )
                &&& final(self).accounts() == old(self).accounts()
            }),
            encoded_size(profile@) <= STORAGE_CAPACITY && !has_profile(
                old(self).profiles(),
                profile@.account,
            ) ==> ({
                &&& final(self).profiles() == old(self).profiles().push(profile@)
                &&& final(self).accounts() == old(self).accounts().push(profile@.account)
            }),
    {
        if !profile_fits(&profile) {
            return Err(Error::StorageFull);
        }
        let found = self.find_account(&profile.account);
        match found {
            Some(i) => {
                proof {
                    lemma_index_of_account(self.profiles(), profile@.account);
                    assert(index_of_account(self.profiles(), profile@.account) == i as int);
                }
                self.profile_map.set(i, profile);
                proof {
                    assert(self.profiles() =~= old(self).profiles().update(i as int, profile@));
                    assert(forall|k: int|
                        0 <= k < self.profiles().len() ==> (#[trigger] self.profiles()[k]).account
                            == old(self).profiles()[k].account);
                }
                Ok(())
            },
            None => {
                self.profile_accounts.push(profile.account);
                self.profile_map.push(profile);
                proof {
                    assert(self.profiles() =~= old(self).profiles().push(profile@));
                    assert(self.accounts() =~= old(self).accounts().push(profile@.account));
                }
                Ok(())
            },
        }
    }

    /// Creates the caller's profile. The call fails with `FieldTooLarge`
    /// when any text field exceeds its ceiling, and with `DuplicateProfile`
    /// when the caller already owns a record; a failed call changes
    /// nothing. On success the record is stored, the caller is appended to
    /// the index, and, exactly when the new profile is public, the
    /// announcement to hand to the notification sink is returned.
    pub fn new_profile(
        &mut self,
        caller: AccountId,
        preferred_display_name: Vec<u8>,
        my_location: Vec<u8>,
        expertise_and_offerings_tags: Vec<u8>,
        my_bio: Vec<u8>,
        photo_link: Vec<u8>,
        website1: Vec<u8>,
        website2: Vec<u8>,
        website3: Vec<u8>,
        life_and_work_account: AccountId,
        social_account: AccountId,
        private_messaging_account: AccountId,
        marketplace_seller_account: AccountId,
        hide_your_profile_from_search: bool,
        now: u64,
    ) -> (r: Result<Option<NewProfile>, Error>)
        requires
            old(self).wf(),
        ensures
            final(self).wf(),
            !fields_ok(
                preferred_display_name@,
                my_location@,
                expertise_and_offerings_tags@,
                my_bio@,
                photo_link@,
                website1@,
                website2@,
                website3@,
            ) ==> ({
                &&& r == Err::<Option<NewProfile>, Error>(Error::FieldTooLarge)
                &&& final(self).profiles() == old(self).profiles()
                &&& final(self).accounts() == old(self).accounts()
            }),
            fields_ok(
                preferred_display_name@,
                my_location@,
                expertise_and_offerings_tags@,
                my_bio@,
                photo_link@,
                website1@,
                website2@,
                website3@,
            ) && has_profile(old(self).profiles(), caller@) ==> ({
                &&& r == Err::<Option<NewProfile>, Error>(Error::DuplicateProfile)
                &&& final(self).profiles() == old(self).profiles()
                &&& final(self).accounts() == old(self).accounts()
            }),
            fields_ok(
                preferred_display_name@,
                my_location@,
                expertise_and_offerings_tags@,
                my_bio@,
                photo_link@,
                website1@,
                website2@,
                website3@,
            ) && !has_profile(old(self).profiles(), caller@) ==> ({
                let pv = proposed_profile(
                    caller@,
                    preferred_display_name@,
                    my_location@,
                    expertise_and_offerings_tags@,
                    my_bio@,
                    photo_link@,
                    website1@,
                    website2@,
                    website3@,
                    life_and_work_account@,
                    social_account@,
                    private_messaging_account@,
                    marketplace_seller_account@,
                    hide_your_profile_from_search,
                    now,
                );
                &&& final(self).profiles() == old(self).profiles().push(pv)
                &&& final(self).accounts() == old(self).accounts().push(caller@)
                &&& match r {
                    Ok(ev) => match ev {
                        Some(e) => !hide_your_profile_from_search && e@ == event_of(pv),
                        None => hide_your_profile_from_search,
                    },
                    Err(_) => false,
                }
            }),
    {
        let ghost pv = proposed_profile(
            caller@,
            preferred_display_name@,
            my_location@,
            expertise_and_offerings_tags@,
            my_bio@,
            photo_link@,
            website1@,
            website2@,
            website3@,
            life_and_work_account@,
            social_account@,
            private_messaging_account@,
            marketplace_seller_account@,
            hide_your_profile_from_search,
            now,
        );
        if !fields_fit(
            &preferred_display_name,
            &my_location,
            &expertise_and_offerings_tags,
            &my_bio,
            &photo_link,
            &website1,
            &website2,
            &website3,
        ) {
            return Err(Error::FieldTooLarge);
        }
        if self.contains_account(&caller) {
            return Err(Error::DuplicateProfile);
        }
        let profile = Profile {
            account: caller,
            display_name: preferred_display_name.clone(),
            location: my_location.clone(),
            tags: expertise_and_offerings_tags.clone(),
            bio: my_bio.clone(),
            photo_url: photo_link.clone(),
            website_url1: website1.clone(),
            website_url2: website2.clone(),
            website_url3: website3.clone(),
            life_and_work: life_and_work_account,
            social: social_account,
            private_messaging: private_messaging_account,
            marketplace: marketplace_seller_account,
            make_private: hide_your_profile_from_search,
            timestamp: now,
        };
        proof {
            assert(profile.display_name@ =~= preferred_display_name@);
            assert(profile.location@ =~= my_location@);
            assert(profile.tags@ =~= expertise_and_offerings_tags@);
            assert(profile.bio@ =~= my_bio@);
            assert(profile.photo_url@ =~= photo_link@);
            assert(profile.website_url1@ =~= website1@);
            assert(profile.website_url2@ =~= website2@);
            assert(profile.website_url3@ =~= website3@);
            assert(profile@ =~= pv);
            lemma_valid_profile_fits(profile@);
        }
        let stored = self.put(profile);
        if stored.is_err() {
            return Err(Error::StorageFull);
        }
        if hide_your_profile_from_search {
            Ok(None)
        } else {
            let event = NewProfile {
                account: caller,
                display_name: preferred_display_name,
                location: my_location,
                tags: expertise_and_offerings_tags,
                bio: my_bio,
                photo_url: photo_link,
                website_url1: website1,
                website_url2: website2,
                website_url3: website3,
                life_and_work: life_and_work_account,
                social: social_account,
                private_messaging: private_messaging_account,
                marketplace: marketplace_seller_account,
            };
            proof {
                assert(event@ =~= event_of(pv));
            }
            Ok(Some(event))
        }
    }

    /// Updates the caller's existing profile. The call fails with
    /// `FieldTooLarge` when any text field exceeds its ceiling, and with
    /// `NotFound` when the caller owns no record; a failed call changes
    /// nothing. On success the stored record is overwritten in place, the
    /// index is untouched, and, exactly when the written profile is
    /// public, the announcement to hand to the notification sink is
    /// returned.
    pub fn update_your_profile(
        &mut self,
        caller: AccountId,
        preferred_display_name: Vec<u8>,
        my_location: Vec<u8>,
        expertise_and_offerings_tags: Vec<u8>,
        my_bio: Vec<u8>,
        photo_link: Vec<u8>,
        website1: Vec<u8>,
        website2: Vec<u8>,
        website3: Vec<u8>,
        life_and_work_account: AccountId,
        social_account: AccountId,
        private_messaging_account: AccountId,
        marketplace_seller_account: AccountId,
        hide_your_profile_from_search: bool,
        now: u64,
    ) -> (r: Result<Option<ProfileUpdate>, Error>)
        requires
            old(self).wf(),
        ensures
            final(self).wf(),
            !fields_ok(
                preferred_display_name@,
                my_location@,
                expertise_and_offerings_tags@,
                my_bio@,
                photo_link@,
                website1@,
                website2@,
                website3@,
            ) ==> ({
                &&& r == Err::<Option<ProfileUpdate>, Error>(Error::FieldTooLarge)
                &&& final(self).profiles() == old(self).profiles()
                &&& final(self).accounts() == old(self).accounts()
            }),
            fields_ok(
                preferred_display_name@,
                my_location@,
                expertise_and_offerings_tags@,
                my_bio@,
                photo_link@,
                website1@,
                website2@,
                website3@,
            ) && !has_profile(old(self).profiles(), caller@) ==> ({
                &&& r == Err::<Option<ProfileUpdate>, Error>(Error::NotFound)
                &&& final(self).profiles() == old(self).profiles()
                &&& final(self).accounts() == old(self).accounts()
            }),
            fields_ok(
                preferred_display_name@,
                my_location@,
                expertise_and_offerings_tags@,
                my_bio@,
                photo_link@,
                website1@,
                website2@,
                website3@,
            ) && has_profile(old(self).profiles(), caller@) ==> ({
                let pv = proposed_profile(
                    caller@,
                    preferred_display_name@,
                    my_location@,
                    expertise_and_offerings_tags@,
                    my_bio@,
                    photo_link@,
                    website1@,
                    website2@,
                    website3@,
                    life_and_work_account@,
                    social_account@,
                    private_messaging_account@,
                    marketplace_seller_account@,
                    hide_your_profile_from_search,
                    now,
                );
                &&& final(self).profiles() == old(self).profiles().update(
                    index_of_account(old(self).profiles(), caller@),
                    pv,
                )
                &&& final(self).accounts() == old(self).accounts()
                &&& match r {
                    Ok(ev) => match ev {
                        Some(e) => !hide_your_profile_from_search && e@ == event_of(pv),
                        None => hide_your_profile_from_search,
                    },
                    Err(_) => false,
                }
            }),
    {
        let ghost pv = proposed_profile(
            caller@,
            preferred_display_name@,
            my_location@,
            expertise_and_offerings_tags@,
            my_bio@,
            photo_link@,
            website1@,
            website2@,
            website3@,
            life_and_work_account@,
            social_account@,
            private_messaging_account@,
            marketplace_seller_account@,
            hide_your_profile_from_search,
            now,
        );
        if !fields_fit(
            &preferred_display_name,
            &my_location,
            &expertise_and_offerings_tags,
            &my_bio,
            &photo_link,
            &website1,
            &website2,
            &website3,
        ) {
            return Err(Error::FieldTooLarge);
        }
        if !self.contains_account(&caller) {
            return Err(Error::NotFound);
        }
        let profile = Profile {
            account: caller,
            display_name: preferred_display_name.clone(),
            location: my_location.clone(),
            tags: expertise_and_offerings_tags.clone(),
            bio: my_bio.clone(),
            photo_url: photo_link.clone(),
            website_url1: website1.clone(),
            website_url2: website2.clone(),
            website_url3: website3.clone(),
            life_and_work: life_and_work_account,
            social: social_account,
            private_messaging: private_messaging_account,
            marketplace: marketplace_seller_account,
            make_private: hide_your_profile_from_search,
            timestamp: now,
        };
        proof {
            assert(profile.display_name@ =~= preferred_display_name@);
            assert(profile.location@ =~= my_location@);
            assert(profile.tags@ =~= expertise_and_offerings_tags@);
            assert(profile.bio@ =~= my_bio@);
            assert(profile.photo_url@ =~= photo_link@);
            assert(profile.website_url1@ =~= website1@);
            assert(profile.website_url2@ =~= website2@);
            assert(profile.website_url3@ =~= website3@);
            assert(profile@ =~= pv);
            lemma_valid_profile_fits(profile@);
        }
        let stored = self.put(profile);
        if stored.is_err() {
            return Err(Error::StorageFull);
        }
        if hide_your_profile_from_search {
            Ok(None)
        } else {
            let event = ProfileUpdate {
                account: caller,
                display_name: preferred_display_name,
                location: my_location,
                tags: expertise_and_offerings_tags,
                bio: my_bio,
                photo_url: photo_link,
                website_url1: website1,
                website_url2: website2,
                website_url3: website3,
                life_and_work: life_and_work_account,
                social: social_account,
                private_messaging: private_messaging_account,
                marketplace: marketplace_seller_account,
            };
            proof {
                assert(event@ =~= event_of(pv));
            }
            Ok(Some(event))
        }
    }

    /// Point lookup for the given account, on behalf of `caller`. The
    /// result is empty when no record exists, and also when the record is
    /// hidden and the caller is not its owner: to third parties a hidden
    /// and a nonexistent profile look alike.
    pub fn get_account_profile(&self, caller: AccountId, account: AccountId) -> (r: Vec<Profile>)
        ensures
            r.deep_view() == point_lookup(self.profiles(), caller@, account@),
    {
        let mut results: Vec<Profile> = Vec::new();
        proof {
            assert(results.deep_view() =~= Seq::<ProfileView>::empty());
        }
        match self.find_account(&account) {
            Some(i) => {
                proof {
                    lemma_index_of_account(self.profiles(), account@);
                    assert(index_of_account(self.profiles(), account@) == i as int);
                }
                let p = &self.profile_map[i];
                if !p.make_private || caller.equals(&account) {
                    results.push(p.clone());
                    proof {
                        assert(results.deep_view() =~= seq![self.profiles()[i as int]]);
                    }
                }
            },
            None => {},
        }
        results
    }

    /// Keyword search: scans the index in order and returns every public
    /// profile in which each of the three terms is found in at least one
    /// of display name, location, tags, and biography. A term that is
    /// empty, or that is not valid UTF-8, matches every profile.
    pub fn get_matching_profiles_by_keyword(
        &self,
        keywords1: Vec<u8>,
        keywords2: Vec<u8>,
        keywords3: Vec<u8>,
    ) -> (r: Vec<Profile>)
        ensures
            r.deep_view() == keyword_results(self.profiles(), keywords1@, keywords2@, keywords3@),
    {
        let mut matching_profiles: Vec<Profile> = Vec::new();
        let n = self.profile_map.len();
        let mut i: usize = 0;
        proof {
            assert(self.profiles().take(0) =~= Seq::<ProfileView>::empty());
            assert(matching_profiles.deep_view() =~= keyword_results(
                self.profiles().take(0),
                keywords1@,
                keywords2@,
                keywords3@,
            ));
        }
        while i < n
            invariant
                n == self.profile_map@.len(),
                i <= n,
                matching_profiles.deep_view() == keyword_results(
                    self.profiles().take(i as int),
                    keywords1@,
                    keywords2@,
                    keywords3@,
                ),
            decreases n - i,
        {
            let ghost prev = matching_profiles.deep_view();
            let p = &self.profile_map[i];
            if !p.make_private && profile_matches_term(p, &keywords1) && profile_matches_term(
                p,
                &keywords2,
            ) && profile_matches_term(p, &keywords3) {
                matching_profiles.push(p.clone());
                proof {
                    assert(matching_profiles.deep_view() =~= prev.push(
                        self.profiles()[i as int],
                    ));
                }
            }
            proof {
                let s = self.profiles();
                assert(s.take(i + 1).drop_last() =~= s.take(i as int));
                assert(s.take(i + 1).last() == s[i as int]);
                assert(matching_profiles.deep_view() =~= keyword_results(
                    s.take(i + 1),
                    keywords1@,
                    keywords2@,
                    keywords3@,
                ));
            }
            i += 1;
        }
        proof {
            assert(self.profiles().take(n as int) =~= self.profiles());
        }
        matching_profiles
    }

    /// Account-reference search: scans the index in order and returns
    /// every public profile whose owner or cross-reference fields include
    /// the given account.
    pub fn get_matching_profiles_by_account(&self, search_account_id: AccountId) -> (r: Vec<
        Profile,
    >)
        ensures
            r.deep_view() == reference_results(self.profiles(), search_account_id@),
    {
        let mut matching_profiles: Vec<Profile> = Vec::new();
        let n = self.profile_map.len();
        let mut i: usize = 0;
        proof {
            assert(self.profiles().take(0) =~= Seq::<ProfileView>::empty());
            assert(matching_profiles.deep_view() =~= reference_results(
                self.profiles().take(0),
                search_account_id@,
            ));
        }
        while i < n
            invariant
                n == self.profile_map@.len(),
                i <= n,
                matching_profiles.deep_view() == reference_results(
                    self.profiles().take(i as int),
                    search_account_id@,
                ),
            decreases n - i,
        {
            let ghost prev = matching_profiles.deep_view();
            let p = &self.profile_map[i];
            if !p.make_private && (p.account.equals(&search_account_id) || p.life_and_work.equals(
                &search_account_id,
            ) || p.social.equals(&search_account_id) || p.private_messaging.equals(
                &search_account_id,
            ) || p.marketplace.equals(&search_account_id)) {
                matching_profiles.push(p.clone());
                proof {
                    assert(matching_profiles.deep_view() =~= prev.push(
                        self.profiles()[i as int],
                    ));
                }
            }
            proof {
                let s = self.profiles();
                assert(s.take(i + 1).drop_last() =~= s.take(i as int));
                assert(s.take(i + 1).last() == s[i as int]);
                assert(matching_profiles.deep_view() =~= reference_results(
                    s.take(i + 1),
                    search_account_id@,
                ));
            }
            i += 1;
        }
        proof {
            assert(self.profiles().take(n as int) =~= self.profiles());
        }
        matching_profiles
    }

    /// 1 when the account has set up a profile, 0 when it has not.
    pub fn verify_account(&self, verify_account_id: AccountId) -> (r: u8)
        ensures
            r == (if has_profile(self.profiles(), verify_account_id@) {
                1u8
            } else {
                0u8
            }),
    {
        if self.contains_account(&verify_account_id) {
            1
        } else {
            0
        }
    }

    /// The full account index in order of first creation: every account
    /// that has ever created a profile, whether or not it is hidden.
    pub fn list_known_accounts(&self) -> (r: Vec<AccountId>)
        ensures
            r.deep_view() == self.accounts(),
    {
        let mut known: Vec<AccountId> = Vec::new();
        let n = self.profile_accounts.len();
        let mut i: usize = 0;
        proof {
            assert(known.deep_view() =~= self.accounts().take(0));
        }
        while i < n
            invariant
                n == self.profile_accounts@.len(),
                i <= n,
                known.deep_view() == self.accounts().take(i as int),
            decreases n - i,
        {
            let ghost prev = known.deep_view();
            known.push(self.profile_accounts[i]);
            proof {
                assert(known.deep_view() =~= prev.push(self.accounts()[i as int]));
                assert(known.deep_view() =~= self.accounts().take(i + 1));
            }
            i += 1;
        }
        proof {
            assert(self.accounts().take(n as int) =~= self.accounts());
        }
        known
    }
}

} // verus!
