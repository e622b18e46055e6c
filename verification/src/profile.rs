//! The profile record: the one mutable entity each account owns.

use vstd::prelude::*;
use crate::account::AccountId;

verus! {

/// The mathematical value of a [`Profile`]: every byte-sequence field as a
/// `Seq<u8>`, with the account fields reduced to their 32 bytes.
#[verifier::ext_equal]
pub struct ProfileView {
    pub account: Seq<u8>,
    pub display_name: Seq<u8>,
    pub location: Seq<u8>,
    pub tags: Seq<u8>,
    pub bio: Seq<u8>,
    pub photo_url: Seq<u8>,
    pub website_url1: Seq<u8>,
    pub website_url2: Seq<u8>,
    pub website_url3: Seq<u8>,
    pub life_and_work: Seq<u8>,
    pub social: Seq<u8>,
    pub private_messaging: Seq<u8>,
    pub marketplace: Seq<u8>,
    pub make_private: bool,
    pub timestamp: u64,
}

/// A profile record. The text fields are raw byte sequences standing for
/// text; the four cross-reference fields point at the accounts that
/// represent the same user in other systems. `make_private` suppresses the
/// profile in search and in third-party lookup without deleting it.
#[derive(Debug, PartialEq, Eq)]
pub struct Profile {
    pub account: AccountId,
    pub display_name: Vec<u8>,
    pub location: Vec<u8>,
    pub tags: Vec<u8>,
    pub bio: Vec<u8>,
    pub photo_url: Vec<u8>,
    pub website_url1: Vec<u8>,
    pub website_url2: Vec<u8>,
    pub website_url3: Vec<u8>,
    pub life_and_work: AccountId,
    pub social: AccountId,
    pub private_messaging: AccountId,
    pub marketplace: AccountId,
    pub make_private: bool,
    pub timestamp: u64,
}

impl View for Profile {
    type V = ProfileView;

    open spec fn view(&self) -> ProfileView {
        ProfileView {
            account: self.account@,
            display_name: self.display_name@,
            location: self.location@,
            tags: self.tags@,
            bio: self.bio@,
            photo_url: self.photo_url@,
            website_url1: self.website_url1@,
            website_url2: self.website_url2@,
            website_url3: self.website_url3@,
            life_and_work: self.life_and_work@,
            social: self.social@,
            private_messaging: self.private_messaging@,
            marketplace: self.marketplace@,
            make_private: self.make_private,
            timestamp: self.timestamp,
        }
    }
}

impl DeepView for Profile {
    type V = ProfileView;

    open spec fn deep_view(&self) -> ProfileView {
        self.view()
    }
}

impl Clone for Profile {
    fn clone(&self) -> (r: Profile)
        ensures
            r@ == self@,
    {
        let r = Profile {
            account: self.account,
            display_name: self.display_name.clone(),
            location: self.location.clone(),
            tags: self.tags.clone(),
            bio: self.bio.clone(),
            photo_url: self.photo_url.clone(),
            website_url1: self.website_url1.clone(),
            website_url2: self.website_url2.clone(),
            website_url3: self.website_url3.clone(),
            life_and_work: self.life_and_work,
            social: self.social,
            private_messaging: self.private_messaging,
            marketplace: self.marketplace,
            make_private: self.make_private,
            timestamp: self.timestamp,
        };
        proof {
            assert(r.display_name@ =~= self.display_name@);
            assert(r.location@ =~= self.location@);
            assert(r.tags@ =~= self.tags@);
            assert(r.bio@ =~= self.bio@);
            assert(r.photo_url@ =~= self.photo_url@);
            assert(r.website_url1@ =~= self.website_url1@);
            assert(r.website_url2@ =~= self.website_url2@);
            assert(r.website_url3@ =~= self.website_url3@);
            assert(r@ =~= self@);
        }
        r
    }
}

/// The view of the profile that [`Profile::default`] returns: every byte
/// sequence empty, every account field all zeroes, public, timestamp 0.
pub open spec fn default_profile_view() -> ProfileView {
    ProfileView {
        account: Seq::new(32, |i: int| 0u8),
        display_name: Seq::empty(),
        location: Seq::empty(),
        tags: Seq::empty(),
        bio: Seq::empty(),
        photo_url: Seq::empty(),
        website_url1: Seq::empty(),
        website_url2: Seq::empty(),
        website_url3: Seq::empty(),
        life_and_work: Seq::new(32, |i: int| 0u8),
        social: Seq::new(32, |i: int| 0u8),
        private_messaging: Seq::new(32, |i: int| 0u8),
        marketplace: Seq::new(32, |i: int| 0u8),
        make_private: false,
        timestamp: 0,
    }
}

impl Default for Profile {
    /// The all-empty record: zero accounts, empty text, public.
    fn default() -> (r: Profile)
        ensures
            r@ == default_profile_view(),
    {
        let r = Profile {
            account: AccountId::zero(),
            display_name: Vec::new(),
            location: Vec::new(),
            tags: Vec::new(),
            bio: Vec::new(),
            photo_url: Vec::new(),
            website_url1: Vec::new(),
            website_url2: Vec::new(),
            website_url3: Vec::new(),
            life_and_work: AccountId::zero(),
            social: AccountId::zero(),
            private_messaging: AccountId::zero(),
            marketplace: AccountId::zero(),
            make_private: false,
            timestamp: 0,
        };
        proof {
            assert(r.account@ =~= Seq::new(32, |i: int| 0u8));
            assert(r.life_and_work@ =~= Seq::new(32, |i: int| 0u8));
            assert(r.social@ =~= Seq::new(32, |i: int| 0u8));
            assert(r.private_messaging@ =~= Seq::new(32, |i: int| 0u8));
            assert(r.marketplace@ =~= Seq::new(32, |i: int| 0u8));
            assert(r@ =~= default_profile_view());
        }
        r
    }
}

} // verus!
