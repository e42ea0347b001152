//! What a member can ask of the store: to see accounts, to hand in a sheet,
//! to modify one, and to post on one.
//!
//! Every request names the caller by credential. A request is judged in a
//! fixed order: the credential, then the rate limit where the request has
//! one, then what the request lacks, then what the caller may do, and only
//! then whether the target exists. A refused request changes nothing in the
//! store.

use crate::fiche_rp::{
    sheet_sound, FicheRP, FicheState, FicheView, MessageView, ReviewMessage,
};
use crate::lookup::{
    auth_index, fiche_index, find_by_auth, find_by_user, find_fiche, find_holder, holder_index,
    owns_fiche, user_index,
};
use crate::permissions::{resolved_role, staff_role, texts, DiscordRole};
use crate::rate_limit::{
    accepts, is_rate_limited, record_after, record_of, RateLimitData, RateLimiter,
};
use crate::review::{
    check_review, modification_error, modified, opened, review_error, reviewed, ReviewError,
};
use crate::user::{
    account_views, clone_texts, is_listed, listed, Account, AccountView,
    FrontAccount, FrontAccountView, WebsiteMeta,
};
use crate::visibility::{account_for_viewer, front_views, visible_account, visible_store};
use vstd::prelude::*;

verus! {

/// How many posts a caller may make in one window.
pub const COMMENT_MAX_REQUESTS: usize = 3;

/// The length of the window for posts, in seconds.
pub const COMMENT_WINDOW: u64 = 300;

/// How many modifications a caller may hand in in one window.
pub const MODIF_MAX_REQUESTS: usize = 5;

/// The length of the window for modifications, in seconds.
pub const MODIF_WINDOW: u64 = 3600;

/// The role under which the owner of `account` acts, given the whitelist.
pub open spec fn caller_role(account: AccountView, whitelist: Seq<Seq<char>>) -> DiscordRole {
    resolved_role(
        account.front.discord_roles,
        listed(whitelist, account.front.discord_user.id),
    )
}

/// The store with the sheet at place `f` of the account at place `h`
/// replaced by `fiche`.
pub open spec fn store_with_fiche(
    store: Seq<AccountView>,
    h: int,
    f: int,
    fiche: FicheView,
) -> Seq<AccountView> {
    store.update(
        h,
        AccountView {
            front: FrontAccountView {
                fiches: store[h].front.fiches.update(f, fiche),
                ..store[h].front
            },
            ..store[h]
        },
    )
}

/// The store with `fiche` added as the last sheet of the account at
/// place `h`.
pub open spec fn store_with_new_fiche(store: Seq<AccountView>, h: int, fiche: FicheView) -> Seq<
    AccountView,
> {
    store.update(
        h,
        AccountView {
            front: FrontAccountView {
                fiches: store[h].front.fiches.push(fiche),
                ..store[h].front
            },
            ..store[h]
        },
    )
}

/// A store is sound when every sheet of every account is.
pub open spec fn store_sound(store: Seq<AccountView>) -> bool {
    forall|a: int, f: int|
        0 <= a < store.len() && 0 <= f < store[a].front.fiches.len() ==> sheet_sound(
            #[trigger] store[a].front.fiches[f],
        )
}

/// A sound store stays sound when one of its sheets is replaced by a
/// sound sheet.
pub proof fn lemma_replaced_fiche_keeps_store_sound(
    store: Seq<AccountView>,
    h: int,
    f: int,
    fiche: FicheView,
)
    requires
        store_sound(store),
        0 <= h < store.len(),
        0 <= f < store[h].front.fiches.len(),
        sheet_sound(fiche),
    ensures
        store_sound(store_with_fiche(store, h, f, fiche)),
{
    let after = store_with_fiche(store, h, f, fiche);
    assert forall|a: int, k: int|
        0 <= a < after.len() && 0 <= k < after[a].front.fiches.len() implies sheet_sound(
        #[trigger] after[a].front.fiches[k],
    ) by {
        if a == h && k == f {
        } else {
            assert(after[a].front.fiches[k] == store[a].front.fiches[k]);
        }
    }
}

/// A sound store stays sound when an account gets one more sound sheet.
pub proof fn lemma_new_fiche_keeps_store_sound(store: Seq<AccountView>, h: int, fiche: FicheView)
    requires
        store_sound(store),
        0 <= h < store.len(),
        sheet_sound(fiche),
    ensures
        store_sound(store_with_new_fiche(store, h, fiche)),
{
    let after = store_with_new_fiche(store, h, fiche);
    assert forall|a: int, k: int|
        0 <= a < after.len() && 0 <= k < after[a].front.fiches.len() implies sheet_sound(
        #[trigger] after[a].front.fiches[k],
    ) by {
        if a == h && k == store[h].front.fiches.len() {
        } else {
            assert(after[a].front.fiches[k] == store[a].front.fiches[k]);
        }
    }
}

/// The role under which the owner of `account` acts, given the whitelist.
pub fn role_of_account(account: &Account, meta: &WebsiteMeta) -> (role: DiscordRole)
    ensures
        role == caller_role(account@, texts(meta.whitelist@)),
{
    let whitelisted = is_listed(&meta.whitelist, account.discord_user.id.as_str());
    DiscordRole::resolve(&account.discord_roles, whitelisted)
}

/// Whether `auth_id` is the credential of an account.
pub fn is_auth_valid(auth_id: &str, accounts: &Vec<Account>) -> (valid: bool)
    ensures
        valid == auth_index(account_views(accounts@), auth_id@).is_some(),
{
    find_by_auth(accounts, auth_id).is_some()
}

/// Where a post lands, or why it is turned down.
///
/// `within_limit` says whether the rate limit lets the request through; it
/// is consulted only for a caller with a valid credential.
pub open spec fn comment_verdict(
    store: Seq<AccountView>,
    whitelist: Seq<Seq<char>>,
    auth_id: Seq<char>,
    fiche_id: Option<Seq<char>>,
    message: MessageView,
    within_limit: bool,
) -> Result<(int, int), ReviewError> {
    match auth_index(store, auth_id) {
        None => Err(ReviewError::Unauthorized),
        Some(c) => {
            if !within_limit {
                Err(ReviewError::RateLimited)
            } else {
                match fiche_id {
                    None => Err(ReviewError::ValidationFailure),
                    Some(id) => {
                        match review_error(
                            caller_role(store[c], whitelist),
                            owns_fiche(store[c], id),
                            message.is_comment,
                            message.set_state,
                        ) {
                            Some(error) => Err(error),
                            None => {
                                match holder_index(store, id) {
                                    None => Err(ReviewError::NotFound),
                                    Some(h) => Ok(
                                        (h, fiche_index(store[h].front.fiches, id).unwrap()),
                                    ),
                                }
                            },
                        }
                    },
                }
            }
        },
    }
}

/// The limiter after a request of `auth_id` at `now`: a caller with a valid
/// credential is counted, anybody else leaves no trace.
pub open spec fn limiter_after(
    records: Map<Seq<char>, RateLimitData>,
    valid: bool,
    auth_id: Seq<char>,
    max_requests: usize,
    window: u64,
    now: u64,
) -> Map<Seq<char>, RateLimitData> {
    if valid {
        records.insert(
            auth_id,
            record_after(record_of(records, auth_id, now), now, max_requests, window),
        )
    } else {
        records
    }
}

/// The text of an optional text.
pub open spec fn text_of(text: Option<String>) -> Option<Seq<char>> {
    match text {
        Some(t) => Some(t@),
        None => None,
    }
}

/// Posts `comment` on the sheet `fiche_id` for the caller `auth_id`.
///
/// The caller is counted against the limit of posts. The post is judged
/// under the caller's resolved role; the caller counts as owner when one of
/// the caller's own sheets has the identifier. On success the first sheet
/// of the store with that identifier takes the message.
pub fn submit_comment(
    auth_id: &str,
    fiche_id: &Option<String>,
    comment: ReviewMessage,
    accounts: &mut Vec<Account>,
    meta: &WebsiteMeta,
    limiter: &mut RateLimiter,
    now: u64,
) -> (done: Result<(), ReviewError>)
    ensures
        final(limiter)@ == limiter_after(
            old(limiter)@,
            auth_index(account_views(old(accounts)@), auth_id@).is_some(),
            auth_id@,
            COMMENT_MAX_REQUESTS,
            COMMENT_WINDOW,
            now,
        ),
        match comment_verdict(
            account_views(old(accounts)@),
            texts(meta.whitelist@),
            auth_id@,
            text_of(*fiche_id),
            comment@,
            accepts(
                record_of(old(limiter)@, auth_id@, now),
                now,
                COMMENT_MAX_REQUESTS,
                COMMENT_WINDOW,
            ),
        ) {
            Err(error) => done == Err::<(), ReviewError>(error) && account_views(final(accounts)@)
                == account_views(old(accounts)@),
            Ok((h, f)) => done == Ok::<(), ReviewError>(()) && account_views(final(accounts)@)
                == store_with_fiche(
                account_views(old(accounts)@),
                h,
                f,
                reviewed(account_views(old(accounts)@)[h].front.fiches[f], comment@),
            ),
        },
        store_sound(account_views(old(accounts)@)) ==> store_sound(account_views(final(accounts)@)),
{
    let caller: usize = match find_by_auth(accounts, auth_id) {
        Some(place) => place,
        None => {
            return Err(ReviewError::Unauthorized);
        },
    };
    if is_rate_limited(auth_id, COMMENT_MAX_REQUESTS, COMMENT_WINDOW, now, limiter) {
        return Err(ReviewError::RateLimited);
    }
    let id: &str = match fiche_id {
        Some(text) => text.as_str(),
        None => {
            return Err(ReviewError::ValidationFailure);
        },
    };
    let role = role_of_account(&accounts[caller], meta);
    let is_owner = find_fiche(&accounts[caller].fiches, id).is_some();
    match check_review(role, is_owner, &comment) {
        Err(error) => {
            return Err(error);
        },
        Ok(()) => {},
    }
    let (h, f): (usize, usize) = match find_holder(accounts, id) {
        Some(places) => places,
        None => {
            return Err(ReviewError::NotFound);
        },
    };
    let ghost store = account_views(accounts@);
    let done = accounts[h].fiches[f].apply_review(comment, role, is_owner);
    proof {
        assert(done.is_ok());
        let target = store_with_fiche(
            store,
            h as int,
            f as int,
            reviewed(store[h as int].front.fiches[f as int], comment@),
        );
        assert(account_views(accounts@).len() == target.len());
        assert forall|k: int| 0 <= k < target.len() implies account_views(accounts@)[k]
            == target[k] by {
            if k == h as int {
                assert(account_views(accounts@)[k].front.fiches =~= target[k].front.fiches);
            }
        }
        assert(account_views(accounts@) =~= target);
        if store_sound(store) {
            assert(sheet_sound(store[h as int].front.fiches[f as int]));
            lemma_replaced_fiche_keeps_store_sound(
                store,
                h as int,
                f as int,
                accounts@[h as int].fiches@[f as int]@,
            );
        }
    }
    done
}

/// Where a modification lands, or why it is turned down. Only a sheet of
/// the caller's own is looked for.
pub open spec fn modif_verdict(
    store: Seq<AccountView>,
    auth_id: Seq<char>,
    fiche_id: Option<Seq<char>>,
    within_limit: bool,
) -> Result<(int, int), ReviewError> {
    match auth_index(store, auth_id) {
        None => Err(ReviewError::Unauthorized),
        Some(c) => {
            if !within_limit {
                Err(ReviewError::RateLimited)
            } else {
                match fiche_id {
                    None => Err(ReviewError::ValidationFailure),
                    Some(id) => {
                        match fiche_index(store[c].front.fiches, id) {
                            None => Err(ReviewError::NotFound),
                            Some(f) => {
                                match modification_error(true, store[c].front.fiches[f].state) {
                                    Some(error) => Err(error),
                                    None => Ok((c, f)),
                                }
                            },
                        }
                    },
                }
            }
        },
    }
}

/// Hands in `ficherp` as a modification of the caller's sheet `fiche_id`.
///
/// The caller is counted against the limit of modifications. On success the
/// sheet says what `ficherp` says, waits for review again, and has one more
/// snapshot in its history.
pub fn submit_ficherp_modif(
    auth_id: &str,
    fiche_id: &Option<String>,
    ficherp: FicheRP,
    accounts: &mut Vec<Account>,
    limiter: &mut RateLimiter,
    now: u64,
) -> (done: Result<(), ReviewError>)
    ensures
        final(limiter)@ == limiter_after(
            old(limiter)@,
            auth_index(account_views(old(accounts)@), auth_id@).is_some(),
            auth_id@,
            MODIF_MAX_REQUESTS,
            MODIF_WINDOW,
            now,
        ),
        match modif_verdict(
            account_views(old(accounts)@),
            auth_id@,
            text_of(*fiche_id),
            accepts(
                record_of(old(limiter)@, auth_id@, now),
                now,
                MODIF_MAX_REQUESTS,
                MODIF_WINDOW,
            ),
        ) {
            Err(error) => done == Err::<(), ReviewError>(error) && account_views(final(accounts)@)
                == account_views(old(accounts)@),
            Ok((h, f)) => done == Ok::<(), ReviewError>(()) && account_views(final(accounts)@)
                == store_with_fiche(
                account_views(old(accounts)@),
                h,
                f,
                modified(account_views(old(accounts)@)[h].front.fiches[f], ficherp@),
            ),
        },
        store_sound(account_views(old(accounts)@)) ==> store_sound(account_views(final(accounts)@)),
{
    let caller: usize = match find_by_auth(accounts, auth_id) {
        Some(place) => place,
        None => {
            return Err(ReviewError::Unauthorized);
        },
    };
    if is_rate_limited(auth_id, MODIF_MAX_REQUESTS, MODIF_WINDOW, now, limiter) {
        return Err(ReviewError::RateLimited);
    }
    let id: &str = match fiche_id {
        Some(text) => text.as_str(),
        None => {
            return Err(ReviewError::ValidationFailure);
        },
    };
    let f: usize = match find_fiche(&accounts[caller].fiches, id) {
        Some(place) => place,
        None => {
            return Err(ReviewError::NotFound);
        },
    };
    let ghost store = account_views(accounts@);
    let done = accounts[caller].fiches[f].apply_modification(ficherp, true);
    proof {
        if done.is_ok() {
            let target = store_with_fiche(
                store,
                caller as int,
                f as int,
                modified(store[caller as int].front.fiches[f as int], ficherp@),
            );
            assert(account_views(accounts@).len() == target.len());
            assert forall|k: int| 0 <= k < target.len() implies account_views(accounts@)[k]
                == target[k] by {
                if k == caller as int {
                    assert(account_views(accounts@)[k].front.fiches =~= target[k].front.fiches);
                }
            }
            assert(account_views(accounts@) =~= target);
            if store_sound(store) {
                assert(sheet_sound(store[caller as int].front.fiches[f as int]));
                lemma_replaced_fiche_keeps_store_sound(
                    store,
                    caller as int,
                    f as int,
                    accounts@[caller as int].fiches@[f as int]@,
                );
            }
        } else {
            assert forall|k: int| 0 <= k < store.len() implies account_views(accounts@)[k]
                == store[k] by {
                if k == caller as int {
                    assert(account_views(accounts@)[k].front.fiches =~= store[k].front.fiches);
                }
            }
            assert(account_views(accounts@) =~= store);
        }
    }
    done
}

/// `uuid::Uuid::now_v7`, written out as text: a fresh identifier in the
/// hyphenated form, which has 36 characters. Which identifier it is depends
/// on the clock and on chance.
#[verifier::external_body]
fn fresh_id() -> (id: String)
    ensures
        id@.len() == 36,
{
    uuid::Uuid::now_v7().to_string()
}

/// The account under which a new sheet lands, or why the sheet is turned
/// down: any member with a valid credential may hand in a sheet, unless
/// banned.
pub open spec fn submission_verdict(store: Seq<AccountView>, auth_id: Seq<char>) -> Result<
    int,
    ReviewError,
> {
    match auth_index(store, auth_id) {
        None => Err(ReviewError::Unauthorized),
        Some(c) => {
            if store[c].front.banned {
                Err(ReviewError::Unauthorized)
            } else {
                Ok(c)
            }
        },
    }
}

/// The answer to a new sheet handed in under identifier `id`, and the store
/// after it.
pub open spec fn submitted(
    store: Seq<AccountView>,
    auth_id: Seq<char>,
    fiche: FicheView,
    id: Seq<char>,
) -> (Result<(), ReviewError>, Seq<AccountView>) {
    match submission_verdict(store, auth_id) {
        Err(error) => (Err(error), store),
        Ok(c) => (Ok(()), store_with_new_fiche(store, c, opened(fiche, id, FicheState::Waiting))),
    }
}

/// Adds `fiche` as the last sheet of the account at place `h`.
fn push_fiche(accounts: &mut Vec<Account>, h: usize, fiche: FicheRP)
    requires
        h < old(accounts).len(),
    ensures
        account_views(final(accounts)@) == store_with_new_fiche(
            account_views(old(accounts)@),
            h as int,
            fiche@,
        ),
        store_sound(account_views(old(accounts)@)) && sheet_sound(fiche@) ==> store_sound(
            account_views(final(accounts)@),
        ),
{
    let ghost store = account_views(accounts@);
    proof {
        if store_sound(store) && sheet_sound(fiche@) {
            lemma_new_fiche_keeps_store_sound(store, h as int, fiche@);
        }
    }
    accounts[h].fiches.push(fiche);
    proof {
        let target = store_with_new_fiche(store, h as int, fiche@);
        assert(account_views(accounts@).len() == target.len());
        assert forall|k: int| 0 <= k < target.len() implies account_views(accounts@)[k]
            == target[k] by {
            if k == h as int {
                assert(account_views(accounts@)[k].front.fiches =~= target[k].front.fiches);
            }
        }
        assert(account_views(accounts@) =~= target);
    }
}

/// Hands in `ficherp` as a new sheet of the caller, under identifier `id`.
///
/// On success the sheet is the caller's last, waits for review, and has an
/// empty log and a history of one snapshot.
pub fn submit_ficherp_as(
    auth_id: &str,
    ficherp: FicheRP,
    id: String,
    accounts: &mut Vec<Account>,
) -> (done: Result<(), ReviewError>)
    ensures
        (done, account_views(final(accounts)@)) == submitted(
            account_views(old(accounts)@),
            auth_id@,
            ficherp@,
            id@,
        ),
        store_sound(account_views(old(accounts)@)) ==> store_sound(account_views(final(accounts)@)),
{
    let caller: usize = match find_by_auth(accounts, auth_id) {
        Some(place) => place,
        None => {
            return Err(ReviewError::Unauthorized);
        },
    };
    if accounts[caller].banned {
        return Err(ReviewError::Unauthorized);
    }
    let fiche = FicheRP::open(ficherp, id, FicheState::Waiting);
    push_fiche(accounts, caller, fiche);
    Ok(())
}

/// Hands in `ficherp` as a new sheet of the caller, under a fresh
/// identifier of 36 characters.
///
/// Apart from the identifier, which nobody can foretell, the answer and
/// the store are those of [`submit_ficherp_as`].
pub fn submit_ficherp(auth_id: &str, ficherp: FicheRP, accounts: &mut Vec<Account>) -> (done:
    Result<(), ReviewError>)
    ensures
        exists|id: Seq<char>|
            id.len() == 36 && (done, account_views(final(accounts)@)) == #[trigger] submitted(
                account_views(old(accounts)@),
                auth_id@,
                ficherp@,
                id,
            ),
        store_sound(account_views(old(accounts)@)) ==> store_sound(account_views(final(accounts)@)),
{
    let id = fresh_id();
    let ghost chosen = id@;
    let done = submit_ficherp_as(auth_id, ficherp, id, accounts);
    proof {
        assert((done, account_views(accounts@)) == submitted(
            account_views(old(accounts)@),
            auth_id@,
            ficherp@,
            chosen,
        ));
    }
    done
}

/// The account under which a sheet handed in on behalf of a member lands,
/// or why the sheet is turned down.
///
/// The caller must belong to the staff, or own the sheet `fiche_id`. The sheet
/// lands in the first account of the member `user_id`.
pub open spec fn admin_submission_verdict(
    store: Seq<AccountView>,
    whitelist: Seq<Seq<char>>,
    auth_id: Seq<char>,
    fiche_id: Option<Seq<char>>,
    user_id: Option<Seq<char>>,
) -> Result<int, ReviewError> {
    match auth_index(store, auth_id) {
        None => Err(ReviewError::Unauthorized),
        Some(c) => {
            if !staff_role(caller_role(store[c], whitelist)) && !(fiche_id.is_some() && owns_fiche(
                store[c],
                fiche_id.unwrap(),
            )) {
                Err(ReviewError::Unauthorized)
            } else {
                match user_id {
                    None => Err(ReviewError::ValidationFailure),
                    Some(member) => {
                        match user_index(store, member) {
                            None => Err(ReviewError::NotFound),
                            Some(t) => Ok(t),
                        }
                    },
                }
            }
        },
    }
}

/// The answer to a sheet handed in on behalf of a member under identifier
/// `id`, and the store after it.
pub open spec fn admin_submitted(
    store: Seq<AccountView>,
    whitelist: Seq<Seq<char>>,
    auth_id: Seq<char>,
    fiche_id: Option<Seq<char>>,
    user_id: Option<Seq<char>>,
    fiche: FicheView,
    id: Seq<char>,
) -> (Result<(), ReviewError>, Seq<AccountView>) {
    match admin_submission_verdict(store, whitelist, auth_id, fiche_id, user_id) {
        Err(error) => (Err(error), store),
        Ok(t) => (Ok(()), store_with_new_fiche(store, t, opened(fiche, id, FicheState::Accepted))),
    }
}

/// Hands in `ficherp` on behalf of the member `user_id`, under identifier
/// `id`.
///
/// On success the sheet is the member's last and is accepted from the
/// start, with an empty log and a history of one snapshot.
pub fn submit_ficherp_admin_as(
    auth_id: &str,
    fiche_id: &Option<String>,
    user_id: &Option<String>,
    ficherp: FicheRP,
    id: String,
    accounts: &mut Vec<Account>,
    meta: &WebsiteMeta,
) -> (done: Result<(), ReviewError>)
    ensures
        (done, account_views(final(accounts)@)) == admin_submitted(
            account_views(old(accounts)@),
            texts(meta.whitelist@),
            auth_id@,
            text_of(*fiche_id),
            text_of(*user_id),
            ficherp@,
            id@,
        ),
        store_sound(account_views(old(accounts)@)) ==> store_sound(account_views(final(accounts)@)),
{
    let caller: usize = match find_by_auth(accounts, auth_id) {
        Some(place) => place,
        None => {
            return Err(ReviewError::Unauthorized);
        },
    };
    let role = role_of_account(&accounts[caller], meta);
    let is_owner: bool = match fiche_id {
        Some(text) => find_fiche(&accounts[caller].fiches, text.as_str()).is_some(),
        None => false,
    };
    if !role.is_staff() && !is_owner {
        return Err(ReviewError::Unauthorized);
    }
    let member: &str = match user_id {
        Some(text) => text.as_str(),
        None => {
            return Err(ReviewError::ValidationFailure);
        },
    };
    let target: usize = match find_by_user(accounts, member) {
        Some(place) => place,
        None => {
            return Err(ReviewError::NotFound);
        },
    };
    let fiche = FicheRP::open(ficherp, id, FicheState::Accepted);
    push_fiche(accounts, target, fiche);
    Ok(())
}

/// Hands in `ficherp` on behalf of the member `user_id`, under a fresh
/// identifier of 36 characters.
///
/// Apart from the identifier, which nobody can foretell, the answer and
/// the store are those of [`submit_ficherp_admin_as`].
pub fn submit_ficherp_admin(
    auth_id: &str,
    fiche_id: &Option<String>,
    user_id: &Option<String>,
    ficherp: FicheRP,
    accounts: &mut Vec<Account>,
    meta: &WebsiteMeta,
) -> (done: Result<(), ReviewError>)
    ensures
        exists|id: Seq<char>|
            id.len() == 36 && (done, account_views(final(accounts)@)) == #[trigger] admin_submitted(
                account_views(old(accounts)@),
                texts(meta.whitelist@),
                auth_id@,
                text_of(*fiche_id),
                text_of(*user_id),
                ficherp@,
                id,
            ),
        store_sound(account_views(old(accounts)@)) ==> store_sound(account_views(final(accounts)@)),
{
    let id = fresh_id();
    let ghost chosen = id@;
    let done = submit_ficherp_admin_as(auth_id, fiche_id, user_id, ficherp, id, accounts, meta);
    proof {
        assert((done, account_views(accounts@)) == admin_submitted(
            account_views(old(accounts)@),
            texts(meta.whitelist@),
            auth_id@,
            text_of(*fiche_id),
            text_of(*user_id),
            ficherp@,
            chosen,
        ));
    }
    done
}

/// The caller's own account, as others may see it.
pub fn retrieve_auth_account(auth_id: &str, accounts: &Vec<Account>) -> (found: Result<
    FrontAccount,
    ReviewError,
>)
    ensures
        match auth_index(account_views(accounts@), auth_id@) {
            None => found == Err::<FrontAccount, ReviewError>(ReviewError::Unauthorized),
            Some(c) => found.is_ok() && found.unwrap()@ == account_views(accounts@)[c].front,
        },
{
    match find_by_auth(accounts, auth_id) {
        None => Err(ReviewError::Unauthorized),
        Some(place) => Ok(accounts[place].to_front()),
    }
}

/// The whitelist, for a caller with a valid credential.
pub fn retrieve_whitelist(auth_id: &str, accounts: &Vec<Account>, meta: &WebsiteMeta) -> (found:
    Result<WebsiteMeta, ReviewError>)
    ensures
        match auth_index(account_views(accounts@), auth_id@) {
            None => found == Err::<WebsiteMeta, ReviewError>(ReviewError::Unauthorized),
            Some(c) => found.is_ok() && found.unwrap().whitelist@ == meta.whitelist@,
        },
{
    match find_by_auth(accounts, auth_id) {
        None => Err(ReviewError::Unauthorized),
        Some(_) => Ok(WebsiteMeta { whitelist: clone_texts(&meta.whitelist) }),
    }
}

/// Every account of the store as the caller gets to see it.
///
/// The staff get every log whole. Any other caller gets the logs without
/// their private messages, except on the caller's own sheets.
pub fn retrieve_accounts(auth_id: &str, accounts: &Vec<Account>, meta: &WebsiteMeta) -> (found:
    Result<Vec<FrontAccount>, ReviewError>)
    ensures
        match auth_index(account_views(accounts@), auth_id@) {
            None => found == Err::<Vec<FrontAccount>, ReviewError>(ReviewError::Unauthorized),
            Some(c) => found.is_ok() && front_views(found.unwrap()@) == visible_store(
                account_views(accounts@),
                account_views(accounts@)[c].front.discord_user.id,
                staff_role(caller_role(account_views(accounts@)[c], texts(meta.whitelist@))),
            ),
        },
{
    let caller: usize = match find_by_auth(accounts, auth_id) {
        Some(place) => place,
        None => {
            return Err(ReviewError::Unauthorized);
        },
    };
    let staff = role_of_account(&accounts[caller], meta).is_staff();
    let viewer_id: &str = accounts[caller].discord_user.id.as_str();
    let mut shown: Vec<FrontAccount> = Vec::new();
    let mut i: usize = 0;
    while i < accounts.len()
        invariant
            i <= accounts.len(),
            shown@.len() == i,
            forall|k: int|
                0 <= k < i ==> shown@[k]@ == visible_account(
                    accounts@[k]@.front,
                    viewer_id@,
                    staff,
                ),
        decreases accounts.len() - i,
    {
        shown.push(account_for_viewer(&accounts[i], viewer_id, staff));
        i = i + 1;
    }
    proof {
        assert(front_views(shown@) =~= visible_store(account_views(accounts@), viewer_id@, staff));
    }
    Ok(shown)
}

} // verus!
