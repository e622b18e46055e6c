//! The validator: per-field size ceilings and the storage capacity rule.
//!
//! Validation is total before any mutation: a write that violates any
//! ceiling is rejected before the store or the index is touched.

use vstd::prelude::*;
use crate::profile::{Profile, ProfileView};

verus! {

/// Ceiling for the display name, in bytes.
pub const DISPLAY_NAME_MAX: usize = 180;

/// Ceiling for the location, in bytes.
pub const LOCATION_MAX: usize = 200;

/// Ceiling for the tags, in bytes.
pub const TAGS_MAX: usize = 600;

/// Ceiling for the biography, in bytes.
pub const BIO_MAX: usize = 1200;

/// Ceiling for the photo link, in bytes.
pub const PHOTO_URL_MAX: usize = 300;

/// Ceiling for each of the three website links, in bytes.
pub const WEBSITE_URL_MAX: usize = 100;

/// Bytes a stored profile takes besides its text fields: five 32-byte
/// account identifiers, the privacy flag, and the timestamp.
pub const PROFILE_FIXED_BYTES: usize = 5 * 32 + 1 + 8;

/// How many bytes one stored record may take in the underlying store.
/// This is a resource limit of the store, not a logical one.
pub const STORAGE_CAPACITY: usize = 16384;

/// True when every proposed text field respects its ceiling.
pub open spec fn fields_ok(
    display_name: Seq<u8>,
    location: Seq<u8>,
    tags: Seq<u8>,
    bio: Seq<u8>,
    photo_url: Seq<u8>,
    website_url1: Seq<u8>,
    website_url2: Seq<u8>,
    website_url3: Seq<u8>,
) -> bool {
    &&& display_name.len() <= DISPLAY_NAME_MAX
    &&& location.len() <= LOCATION_MAX
    &&& tags.len() <= TAGS_MAX
    &&& bio.len() <= BIO_MAX
    &&& photo_url.len() <= PHOTO_URL_MAX
    &&& website_url1.len() <= WEBSITE_URL_MAX
    &&& website_url2.len() <= WEBSITE_URL_MAX
    &&& website_url3.len() <= WEBSITE_URL_MAX
}

/// True when every text field of the profile respects its ceiling.
pub open spec fn profile_fields_ok(p: ProfileView) -> bool {
    fields_ok(
        p.display_name,
        p.location,
        p.tags,
        p.bio,
        p.photo_url,
        p.website_url1,
        p.website_url2,
        p.website_url3,
    )
}

/// How many bytes the profile takes once stored: the fixed fields plus
/// every text byte.
pub open spec fn encoded_size(p: ProfileView) -> int {
    PROFILE_FIXED_BYTES + p.display_name.len() + p.location.len() + p.tags.len() + p.bio.len()
        + p.photo_url.len() + p.website_url1.len() + p.website_url2.len() + p.website_url3.len()
}

/// Checks the proposed text fields against their ceilings.
pub fn fields_fit(
    display_name: &Vec<u8>,
    location: &Vec<u8>,
    tags: &Vec<u8>,
    bio: &Vec<u8>,
    photo_url: &Vec<u8>,
    website_url1: &Vec<u8>,
    website_url2: &Vec<u8>,
    website_url3: &Vec<u8>,
) -> (r: bool)
    ensures
        r == fields_ok(
            display_name@,
            location@,
            tags@,
            bio@,
            photo_url@,
            website_url1@,
            website_url2@,
            website_url3@,
        ),
{
    display_name.len() <= DISPLAY_NAME_MAX && location.len() <= LOCATION_MAX && tags.len()
        <= TAGS_MAX && bio.len() <= BIO_MAX && photo_url.len() <= PHOTO_URL_MAX
        && website_url1.len() <= WEBSITE_URL_MAX && website_url2.len() <= WEBSITE_URL_MAX
        && website_url3.len() <= WEBSITE_URL_MAX
}

/// Checks that the profile fits in one stored record.
pub fn profile_fits(p: &Profile) -> (r: bool)
    ensures
        r == (encoded_size(p@) <= STORAGE_CAPACITY),
{
    let mut total: usize = PROFILE_FIXED_BYTES;
    if p.display_name.len() > STORAGE_CAPACITY - total {
        return false;
    }
    total = total + p.display_name.len();
    if p.location.len() > STORAGE_CAPACITY - total {
        return false;
    }
    total = total + p.location.len();
    if p.tags.len() > STORAGE_CAPACITY - total {
        return false;
    }
    total = total + p.tags.len();
    if p.bio.len() > STORAGE_CAPACITY - total {
        return false;
    }
    total = total + p.bio.len();
    if p.photo_url.len() > STORAGE_CAPACITY - total {
        return false;
    }
    total = total + p.photo_url.len();
    if p.website_url1.len() > STORAGE_CAPACITY - total {
        return false;
    }
    total = total + p.website_url1.len();
    if p.website_url2.len() > STORAGE_CAPACITY - total {
        return false;
    }
    total = total + p.website_url2.len();
    if p.website_url3.len() > STORAGE_CAPACITY - total {
        return false;
    }
    true
}

/// A profile whose fields all respect their ceilings fits in one stored
/// record with room to spare: the ceilings together stay well under the
/// storage capacity.
pub proof fn lemma_valid_profile_fits(p: ProfileView)
    requires
        profile_fields_ok(p),
    ensures
        encoded_size(p) <= STORAGE_CAPACITY,
{
}

} // verus!
