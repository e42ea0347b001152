//! Finding accounts and sheets in the store.
//!
//! The store is a list of accounts, each with its own sheets. A lookup
//! always answers with the first match, as a query on the store does.

use crate::fiche_rp::{FicheRP, FicheView};
use crate::text::same_text;
use crate::user::{account_views, fiche_views, Account, AccountView};
use vstd::prelude::*;

verus! {

/// Whether `i` is the first place at which `flags` holds.
pub open spec fn is_first_true(flags: Seq<bool>, i: int) -> bool {
    0 <= i < flags.len() && flags[i] && forall|j: int| 0 <= j < i ==> !flags[j]
}

/// The first place at which `flags` holds, if it holds anywhere.
pub open spec fn first_true(flags: Seq<bool>) -> Option<int> {
    if exists|i: int| is_first_true(flags, i) {
        Some(choose|i: int| is_first_true(flags, i))
    } else {
        None
    }
}

/// A first place is the only first place.
pub proof fn lemma_first_true_found(flags: Seq<bool>, i: int)
    requires
        is_first_true(flags, i),
    ensures
        first_true(flags) == Some(i),
{
    let chosen = choose|k: int| is_first_true(flags, k);
    assert(is_first_true(flags, chosen));
    if chosen < i {
        assert(!flags[chosen]);
    } else if i < chosen {
        assert(!flags[i]);
    }
}

/// Where nothing holds there is no first place.
pub proof fn lemma_first_true_missing(flags: Seq<bool>)
    requires
        forall|j: int| 0 <= j < flags.len() ==> !flags[j],
    ensures
        first_true(flags).is_none(),
{
}

/// For each account of the store, whether `auth_id` is its credential.
pub open spec fn auth_flags(store: Seq<AccountView>, auth_id: Seq<char>) -> Seq<bool> {
    Seq::new(store.len(), |i: int| store[i].auth_id == auth_id)
}

/// The place of the first account whose credential is `auth_id`.
pub open spec fn auth_index(store: Seq<AccountView>, auth_id: Seq<char>) -> Option<int> {
    first_true(auth_flags(store, auth_id))
}

/// For each account of the store, whether it belongs to member `user_id`.
pub open spec fn user_flags(store: Seq<AccountView>, user_id: Seq<char>) -> Seq<bool> {
    Seq::new(store.len(), |i: int| store[i].front.discord_user.id == user_id)
}

/// The place of the first account of member `user_id`.
pub open spec fn user_index(store: Seq<AccountView>, user_id: Seq<char>) -> Option<int> {
    first_true(user_flags(store, user_id))
}

/// For each sheet of the list, whether its identifier is `fiche_id`.
pub open spec fn fiche_flags(fiches: Seq<FicheView>, fiche_id: Seq<char>) -> Seq<bool> {
    Seq::new(fiches.len(), |i: int| fiches[i].id == fiche_id)
}

/// The place of the first sheet with identifier `fiche_id`.
pub open spec fn fiche_index(fiches: Seq<FicheView>, fiche_id: Seq<char>) -> Option<int> {
    first_true(fiche_flags(fiches, fiche_id))
}

/// Whether the account owns a sheet with identifier `fiche_id`.
pub open spec fn owns_fiche(account: AccountView, fiche_id: Seq<char>) -> bool {
    fiche_index(account.front.fiches, fiche_id).is_some()
}

/// For each account of the store, whether it owns a sheet with identifier
/// `fiche_id`.
pub open spec fn holder_flags(store: Seq<AccountView>, fiche_id: Seq<char>) -> Seq<bool> {
    Seq::new(store.len(), |i: int| owns_fiche(store[i], fiche_id))
}

/// The place of the first account that owns a sheet with identifier
/// `fiche_id`.
pub open spec fn holder_index(store: Seq<AccountView>, fiche_id: Seq<char>) -> Option<int> {
    first_true(holder_flags(store, fiche_id))
}

/// A place in a list, as a machine index.
pub open spec fn as_place(index: Option<int>) -> Option<usize> {
    match index {
        Some(i) => Some(i as usize),
        None => None,
    }
}

/// The place of the first account whose credential is `auth_id`.
pub fn find_by_auth(accounts: &Vec<Account>, auth_id: &str) -> (found: Option<usize>)
    ensures
        found == as_place(auth_index(account_views(accounts@), auth_id@)),
        found.is_some() ==> found.unwrap() < accounts.len(),
{
    let ghost flags = auth_flags(account_views(accounts@), auth_id@);
    let mut i: usize = 0;
    while i < accounts.len()
        invariant
            i <= accounts.len(),
            flags == auth_flags(account_views(accounts@), auth_id@),
            forall|j: int| 0 <= j < i ==> !flags[j],
        decreases accounts.len() - i,
    {
        if same_text(accounts[i].auth_id.as_str(), auth_id) {
            proof {
                lemma_first_true_found(flags, i as int);
            }
            return Some(i);
        }
        i = i + 1;
    }
    proof {
        lemma_first_true_missing(flags);
    }
    None
}

/// The place of the first account of member `user_id`.
pub fn find_by_user(accounts: &Vec<Account>, user_id: &str) -> (found: Option<usize>)
    ensures
        found == as_place(user_index(account_views(accounts@), user_id@)),
        found.is_some() ==> found.unwrap() < accounts.len(),
{
    let ghost flags = user_flags(account_views(accounts@), user_id@);
    let mut i: usize = 0;
    while i < accounts.len()
        invariant
            i <= accounts.len(),
            flags == user_flags(account_views(accounts@), user_id@),
            forall|j: int| 0 <= j < i ==> !flags[j],
        decreases accounts.len() - i,
    {
        if same_text(accounts[i].discord_user.id.as_str(), user_id) {
            proof {
                lemma_first_true_found(flags, i as int);
            }
            return Some(i);
        }
        i = i + 1;
    }
    proof {
        lemma_first_true_missing(flags);
    }
    None
}

/// The place of the first sheet with identifier `fiche_id`.
pub fn find_fiche(fiches: &Vec<FicheRP>, fiche_id: &str) -> (found: Option<usize>)
    ensures
        found == as_place(fiche_index(fiche_views(fiches@), fiche_id@)),
        found.is_some() ==> found.unwrap() < fiches.len(),
{
    let ghost flags = fiche_flags(fiche_views(fiches@), fiche_id@);
    let mut i: usize = 0;
    while i < fiches.len()
        invariant
            i <= fiches.len(),
            flags == fiche_flags(fiche_views(fiches@), fiche_id@),
            forall|j: int| 0 <= j < i ==> !flags[j],
        decreases fiches.len() - i,
    {
        if same_text(fiches[i].id.as_str(), fiche_id) {
            proof {
                lemma_first_true_found(flags, i as int);
            }
            return Some(i);
        }
        i = i + 1;
    }
    proof {
        lemma_first_true_missing(flags);
    }
    None
}

/// The first account that owns a sheet with identifier `fiche_id`, and the
/// place of the first such sheet among its sheets.
pub fn find_holder(accounts: &Vec<Account>, fiche_id: &str) -> (found: Option<(usize, usize)>)
    ensures
        found.is_some() == holder_index(account_views(accounts@), fiche_id@).is_some(),
        found.is_some() ==> found.unwrap().0 == holder_index(
            account_views(accounts@),
            fiche_id@,
        ).unwrap() && found.unwrap().0 < accounts.len(),
        found.is_some() ==> found.unwrap().1 == fiche_index(
            accounts@[found.unwrap().0 as int]@.front.fiches,
            fiche_id@,
        ).unwrap() && found.unwrap().1 < accounts@[found.unwrap().0 as int].fiches.len(),
{
    let ghost flags = holder_flags(account_views(accounts@), fiche_id@);
    let mut i: usize = 0;
    while i < accounts.len()
        invariant
            i <= accounts.len(),
            flags == holder_flags(account_views(accounts@), fiche_id@),
            forall|j: int| 0 <= j < i ==> !flags[j],
        decreases accounts.len() - i,
    {
        match find_fiche(&accounts[i].fiches, fiche_id) {
            Some(place) => {
                proof {
                    lemma_first_true_found(flags, i as int);
                }
                return Some((i, place));
            },
            None => {},
        }
        i = i + 1;
    }
    proof {
        lemma_first_true_missing(flags);
    }
    None
}

} // verus!
