//! The properties the directory promises, each proved from the
//! operations' contracts.

use vstd::prelude::*;
use crate::profile::ProfileView;
use crate::store::{
    has_profile, index_of_account, keyword_results, lemma_index_of_account, point_lookup,
    reference_results, references_account, ContractStorage,
};
use crate::text::matches_keywords;

verus! {

/// Once an account has created a profile, the store holds a record for
/// it: a create immediately followed by a second create for the same
/// account therefore fails as a duplicate.
pub proof fn lemma_created_account_present(profiles: Seq<ProfileView>, p: ProfileView)
    ensures
        has_profile(profiles.push(p), p.account),
{
    assert(profiles.push(p)[profiles.len() as int] == p);
}

/// Round trip: after an account creates its profile, a point lookup for
/// that account returns exactly the stored record, both to the owner and,
/// when the record is public, to anyone.
pub proof fn lemma_create_round_trip(profiles: Seq<ProfileView>, p: ProfileView, caller: Seq<u8>)
    requires
        !has_profile(profiles, p.account),
        !p.make_private || caller == p.account,
    ensures
        point_lookup(profiles.push(p), caller, p.account) == seq![p],
{
    let pushed = profiles.push(p);
    lemma_created_account_present(profiles, p);
    lemma_index_of_account(pushed, p.account);
    let j = index_of_account(pushed, p.account);
    if j < profiles.len() {
        assert(pushed[j] == profiles[j]);
        assert((profiles[j]).account == p.account);
    }
    assert(j == profiles.len());
}

/// Round trip for the update path: overwriting the record an account owns
/// and then looking that account up returns exactly the new record, both
/// to the owner and, when it is public, to anyone.
pub proof fn lemma_update_round_trip(s: Seq<ProfileView>, i: int, p: ProfileView, caller: Seq<u8>)
    requires
        0 <= i < s.len(),
        s[i].account == p.account,
        forall|k1: int, k2: int|
            0 <= k1 < k2 < s.len() ==> (#[trigger] s[k1]).account != (#[trigger] s[k2]).account,
        !p.make_private || caller == p.account,
    ensures
        point_lookup(s.update(i, p), caller, p.account) == seq![p],
{
    let written = s.update(i, p);
    assert(written[i].account == p.account);
    lemma_index_of_account(written, p.account);
    let j = index_of_account(written, p.account);
    assert(has_profile(written, p.account));
    if j < i {
        assert(written[j] == s[j]);
        assert(s[j].account != s[i].account);
    }
    assert(j == i);
}

/// Every record the keyword search returns is public, matches all three
/// terms, and is stored.
pub proof fn lemma_keyword_results_sound(s: Seq<ProfileView>, t1: Seq<u8>, t2: Seq<u8>, t3: Seq<u8>)
    ensures
        forall|p: ProfileView|
            #[trigger] keyword_results(s, t1, t2, t3).contains(p) ==> !p.make_private
                && matches_keywords(p, t1, t2, t3) && s.contains(p),
    decreases s.len(),
{
    if s.len() == 0 {
    } else {
        lemma_keyword_results_sound(s.drop_last(), t1, t2, t3);
        let res = keyword_results(s, t1, t2, t3);
        let rest = keyword_results(s.drop_last(), t1, t2, t3);
        assert forall|p: ProfileView| #[trigger] res.contains(p) implies !p.make_private
            && matches_keywords(p, t1, t2, t3) && s.contains(p) by {
            let j = choose|j: int| 0 <= j < res.len() && res[j] == p;
            if j < rest.len() {
                assert(rest[j] == p);
                assert(rest.contains(p));
                assert(s.drop_last().contains(p));
                let k = choose|k: int| 0 <= k < s.drop_last().len() && s.drop_last()[k] == p;
                assert(s[k] == p);
            } else {
                assert(p == s.last());
                assert(s[s.len() - 1] == p);
            }
        }
    }
}

/// Every stored public record that matches all three terms appears in the
/// keyword search results.
pub proof fn lemma_keyword_results_complete(
    s: Seq<ProfileView>,
    i: int,
    t1: Seq<u8>,
    t2: Seq<u8>,
    t3: Seq<u8>,
)
    requires
        0 <= i < s.len(),
        !s[i].make_private,
        matches_keywords(s[i], t1, t2, t3),
    ensures
        keyword_results(s, t1, t2, t3).contains(s[i]),
    decreases s.len(),
{
    let res = keyword_results(s, t1, t2, t3);
    let rest = keyword_results(s.drop_last(), t1, t2, t3);
    if i == s.len() - 1 {
        assert(res[rest.len() as int] == s[i]);
    } else {
        assert(s.drop_last()[i] == s[i]);
        lemma_keyword_results_complete(s.drop_last(), i, t1, t2, t3);
        let j = choose|j: int| 0 <= j < rest.len() && rest[j] == s[i];
        assert(res[j] == s[i]);
    }
}

/// Every record the account-reference search returns is public,
/// references the target account, and is stored.
pub proof fn lemma_reference_results_sound(s: Seq<ProfileView>, account: Seq<u8>)
    ensures
        forall|p: ProfileView|
            #[trigger] reference_results(s, account).contains(p) ==> !p.make_private
                && references_account(p, account) && s.contains(p),
    decreases s.len(),
{
    if s.len() == 0 {
    } else {
        lemma_reference_results_sound(s.drop_last(), account);
        let res = reference_results(s, account);
        let rest = reference_results(s.drop_last(), account);
        assert forall|p: ProfileView| #[trigger] res.contains(p) implies !p.make_private
            && references_account(p, account) && s.contains(p) by {
            let j = choose|j: int| 0 <= j < res.len() && res[j] == p;
            if j < rest.len() {
                assert(rest[j] == p);
                assert(rest.contains(p));
                assert(s.drop_last().contains(p));
                let k = choose|k: int| 0 <= k < s.drop_last().len() && s.drop_last()[k] == p;
                assert(s[k] == p);
            } else {
                assert(p == s.last());
                assert(s[s.len() - 1] == p);
            }
        }
    }
}

/// The account-reference search returns a stored public profile whenever
/// the target equals its owner or any of its four cross-references.
pub proof fn lemma_reference_results_complete(s: Seq<ProfileView>, i: int, account: Seq<u8>)
    requires
        0 <= i < s.len(),
        !s[i].make_private,
        references_account(s[i], account),
    ensures
        reference_results(s, account).contains(s[i]),
    decreases s.len(),
{
    let res = reference_results(s, account);
    let rest = reference_results(s.drop_last(), account);
    if i == s.len() - 1 {
        assert(res[rest.len() as int] == s[i]);
    } else {
        assert(s.drop_last()[i] == s[i]);
        lemma_reference_results_complete(s.drop_last(), i, account);
        let j = choose|j: int| 0 <= j < rest.len() && rest[j] == s[i];
        assert(res[j] == s[i]);
    }
}

/// A hidden record never shows up: it is absent from both searches even
/// when its content matches, and a point lookup on behalf of anyone but
/// its owner returns nothing.
pub proof fn lemma_private_profile_hidden(
    store: ContractStorage,
    i: int,
    t1: Seq<u8>,
    t2: Seq<u8>,
    t3: Seq<u8>,
    target: Seq<u8>,
    caller: Seq<u8>,
)
    requires
        store.wf(),
        0 <= i < store.profiles().len(),
        store.profiles()[i].make_private,
    ensures
        !keyword_results(store.profiles(), t1, t2, t3).contains(store.profiles()[i]),
        !reference_results(store.profiles(), target).contains(store.profiles()[i]),
        caller != store.profiles()[i].account ==> point_lookup(
            store.profiles(),
            caller,
            store.profiles()[i].account,
        ) == Seq::<ProfileView>::empty(),
{
    let s = store.profiles();
    lemma_keyword_results_sound(s, t1, t2, t3);
    lemma_reference_results_sound(s, target);
    lemma_index_of_account(s, s[i].account);
    let j = index_of_account(s, s[i].account);
    assert(j < s.len());
    assert(j == i);
}

/// The account index never repeats an entry: after any number of distinct
/// successful creates it lists exactly those accounts, in creation order.
pub proof fn lemma_known_accounts_distinct(store: ContractStorage)
    requires
        store.wf(),
    ensures
        forall|i: int, j: int|
            0 <= i < j < store.accounts().len() ==> (#[trigger] store.accounts()[i]) != (
            #[trigger] store.accounts()[j]),
{
}

} // verus!
