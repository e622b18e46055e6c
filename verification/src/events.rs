//! Change events handed to the notification sink.
//!
//! After a successful create or update that leaves the profile public, one
//! event carrying the written fields is handed to the host for delivery.
//! No event is produced for a write that leaves the profile hidden.

use vstd::prelude::*;
use crate::account::AccountId;
use crate::profile::ProfileView;

verus! {

/// The mathematical value of a change event: the announced fields of the
/// written profile.
#[verifier::ext_equal]
pub struct EventView {
    pub account: Seq<u8>,
    pub display_name: Seq<u8>,
    pub location: Seq<u8>,
    pub tags: Seq<u8>,
    pub bio: Seq<u8>,
    pub photo_url: Seq<u8>,
    pub website_url1: Seq<u8>,
    pub website_url2: Seq<u8>,
    pub website_url3: Seq<u8>,
    pub life_and_work: Seq<u8>,
    pub social: Seq<u8>,
    pub private_messaging: Seq<u8>,
    pub marketplace: Seq<u8>,
}

/// The event content announcing the given stored record: every field of
/// the profile except the privacy flag and the timestamp.
pub open spec fn event_of(p: ProfileView) -> EventView {
    EventView {
        account: p.account,
        display_name: p.display_name,
        location: p.location,
        tags: p.tags,
        bio: p.bio,
        photo_url: p.photo_url,
        website_url1: p.website_url1,
        website_url2: p.website_url2,
        website_url3: p.website_url3,
        life_and_work: p.life_and_work,
        social: p.social,
        private_messaging: p.private_messaging,
        marketplace: p.marketplace,
    }
}

/// Announcement that an account has filled out a new profile.
#[derive(Debug, PartialEq, Eq)]
pub struct NewProfile {
    pub account: AccountId,
    pub display_name: Vec<u8>,
    pub location: Vec<u8>,
    pub tags: Vec<u8>,
    pub bio: Vec<u8>,
    pub photo_url: Vec<u8>,
    pub website_url1: Vec<u8>,
    pub website_url2: Vec<u8>,
    pub website_url3: Vec<u8>,
    pub life_and_work: AccountId,
    pub social: AccountId,
    pub private_messaging: AccountId,
    pub marketplace: AccountId,
}

impl View for NewProfile {
    type V = EventView;

    open spec fn view(&self) -> EventView {
        EventView {
            account: self.account@,
            display_name: self.display_name@,
            location: self.location@,
            tags: self.tags@,
            bio: self.bio@,
            photo_url: self.photo_url@,
            website_url1: self.website_url1@,
            website_url2: self.website_url2@,
            website_url3: self.website_url3@,
            life_and_work: self.life_and_work@,
            social: self.social@,
            private_messaging: self.private_messaging@,
            marketplace: self.marketplace@,
        }
    }
}

/// Announcement that an account has updated its existing profile.
#[derive(Debug, PartialEq, Eq)]
pub struct ProfileUpdate {
    pub account: AccountId,
    pub display_name: Vec<u8>,
    pub location: Vec<u8>,
    pub tags: Vec<u8>,
    pub bio: Vec<u8>,
    pub photo_url: Vec<u8>,
    pub website_url1: Vec<u8>,
    pub website_url2: Vec<u8>,
    pub website_url3: Vec<u8>,
    pub life_and_work: AccountId,
    pub social: AccountId,
    pub private_messaging: AccountId,
    pub marketplace: AccountId,
}

impl View for ProfileUpdate {
    type V = EventView;

    open spec fn view(&self) -> EventView {
        EventView {
            account: self.account@,
            display_name: self.display_name@,
            location: self.location@,
            tags: self.tags@,
            bio: self.bio@,
            photo_url: self.photo_url@,
            website_url1: self.website_url1@,
            website_url2: self.website_url2@,
            website_url3: self.website_url3@,
            life_and_work: self.life_and_work@,
            social: self.social@,
            private_messaging: self.private_messaging@,
            marketplace: self.marketplace@,
        }
    }
}

} // verus!
