//! Best-effort text matching over raw byte sequences.
//!
//! Text fields are byte sequences. For matching, a field or a search term
//! counts as its bytes when they are valid UTF-8 and as empty text
//! otherwise; an invalid encoding is never a fault, only a non-match. A
//! term matches a profile when it occurs as a contiguous byte run in at
//! least one of the four searchable fields.

use vstd::prelude::*;
use vstd::utf8::valid_utf8;
use crate::profile::{Profile, ProfileView};

verus! {

/// The text a byte sequence stands for when matching: the bytes themselves
/// when they are valid UTF-8, empty text otherwise.
pub open spec fn text_of(bytes: Seq<u8>) -> Seq<u8> {
    if valid_utf8(bytes) {
        bytes
    } else {
        Seq::empty()
    }
}

/// True when `needle` occurs contiguously inside `hay`. The empty needle
/// occurs in everything.
pub open spec fn contains_bytes(hay: Seq<u8>, needle: Seq<u8>) -> bool {
    exists|i: int|
        0 <= i && i + needle.len() <= hay.len() && #[trigger] hay.subrange(
            i,
            i + needle.len() as int,
        ) == needle
}

/// True when the term is found in at least one of the four searchable
/// fields, each side read as best-effort text. A term that is empty, or
/// that is not valid UTF-8, matches every profile.
pub open spec fn term_matches(p: ProfileView, term: Seq<u8>) -> bool {
    let t = text_of(term);
    ||| contains_bytes(text_of(p.bio), t)
    ||| contains_bytes(text_of(p.location), t)
    ||| contains_bytes(text_of(p.display_name), t)
    ||| contains_bytes(text_of(p.tags), t)
}

/// True when every one of the three terms matches the profile: AND across
/// terms, OR across fields for each term.
pub open spec fn matches_keywords(p: ProfileView, t1: Seq<u8>, t2: Seq<u8>, t3: Seq<u8>) -> bool {
    term_matches(p, t1) && term_matches(p, t2) && term_matches(p, t3)
}

/// The empty needle occurs in any text.
proof fn lemma_empty_needle_found(hay: Seq<u8>, needle: Seq<u8>)
    requires
        needle.len() == 0,
    ensures
        contains_bytes(hay, needle),
{
    assert(hay.subrange(0, 0 + needle.len() as int) =~= needle);
}

/// A non-empty needle never occurs in empty text.
proof fn lemma_nonempty_needle_not_in_empty(needle: Seq<u8>)
    requires
        needle.len() > 0,
    ensures
        !contains_bytes(Seq::<u8>::empty(), needle),
{
}

/// Relies on `core::str::from_utf8`: it returns `Ok` exactly when the
/// bytes are valid UTF-8, and the answer depends on the bytes alone.
#[verifier::external_body]
fn utf8_valid(bytes: &Vec<u8>) -> (r: bool)
    ensures
        r == valid_utf8(bytes@),
{
    core::str::from_utf8(bytes.as_slice()).is_ok()
}

/// Compares `needle` against `hay` at offset `i`.
fn matches_at(hay: &Vec<u8>, needle: &Vec<u8>, i: usize) -> (r: bool)
    requires
        i + needle@.len() <= hay@.len(),
    ensures
        r == (hay@.subrange(i as int, i + needle@.len()) == needle@),
{
    let hay_len = hay.len();
    let mut j: usize = 0;
    while j < needle.len()
        invariant
            i + needle@.len() <= hay@.len(),
            hay@.len() == hay_len,
            j <= needle@.len(),
            forall|m: int| 0 <= m < j ==> hay@[i + m] == needle@[m],
        decreases needle@.len() - j,
    {
        if hay[i + j] != needle[j] {
            proof {
                assert(hay@.subrange(i as int, i + needle@.len())[j as int] == hay@[i + j]);
            }
            return false;
        }
        j += 1;
    }
    proof {
        assert(hay@.subrange(i as int, i + needle@.len()) =~= needle@);
    }
    true
}

/// Naive contiguous search for `needle` inside `hay`.
fn find_bytes(hay: &Vec<u8>, needle: &Vec<u8>) -> (r: bool)
    ensures
        r == contains_bytes(hay@, needle@),
{
    if needle.len() == 0 {
        proof {
            lemma_empty_needle_found(hay@, needle@);
        }
        return true;
    }
    if needle.len() > hay.len() {
        return false;
    }
    let end = hay.len() - needle.len();
    let mut i: usize = 0;
    while i <= end
        invariant
            0 < needle@.len() <= hay@.len(),
            hay@.len() <= usize::MAX,
            end == hay@.len() - needle@.len(),
            i <= end + 1,
            forall|k: int|
                0 <= k < i ==> #[trigger] hay@.subrange(k, k + needle@.len()) != needle@,
        decreases end + 1 - i,
    {
        if matches_at(hay, needle, i) {
            return true;
        }
        i += 1;
    }
    false
}

/// Decides whether the term is found in one of the profile's four
/// searchable fields, both sides read as best-effort text.
pub fn profile_matches_term(p: &Profile, term: &Vec<u8>) -> (r: bool)
    ensures
        r == term_matches(p@, term@),
{
    if term.len() == 0 || !utf8_valid(term) {
        proof {
            lemma_empty_needle_found(text_of(p@.bio), text_of(term@));
        }
        return true;
    }
    let found = (utf8_valid(&p.bio) && find_bytes(&p.bio, term)) || (utf8_valid(&p.location)
        && find_bytes(&p.location, term)) || (utf8_valid(&p.display_name) && find_bytes(
        &p.display_name,
        term,
    )) || (utf8_valid(&p.tags) && find_bytes(&p.tags, term));
    proof {
        if !valid_utf8(p@.bio) {
            lemma_nonempty_needle_not_in_empty(term@);
        }
        if !valid_utf8(p@.location) {
            lemma_nonempty_needle_not_in_empty(term@);
        }
        if !valid_utf8(p@.display_name) {
            lemma_nonempty_needle_not_in_empty(term@);
        }
        if !valid_utf8(p@.tags) {
            lemma_nonempty_needle_not_in_empty(term@);
        }
    }
    found
}

} // verus!
