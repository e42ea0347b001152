//! The life of an account: how it comes into the store, how its credential
//! and tokens are replaced, and what the hourly sweep does with it.
//!
//! An account is made once and never removed. Times are seconds since the
//! epoch, supplied by the caller.

use crate::lookup::{auth_index, find_by_auth, find_by_user, user_index};
use crate::permissions::texts;
use crate::review::ReviewError;
use crate::text::{contains_text, occurs_in};
use crate::user::{
    account_views, Account, AccountView, FrontAccountView, GuildMember, Token, User, UserView,
};
use vstd::prelude::*;

verus! {

/// What the sweep does with an account.
#[derive(Clone, Copy, Debug, PartialEq, Eq, Structural)]
pub enum RenewalAction {
    /// The access token has run out: the credential is replaced, so that the
    /// member has to sign in again.
    Reissue,
    /// The access token runs out within a day: it is renewed.
    Renew,
    /// The access token holds for more than a day: only the profile is
    /// refreshed.
    Refresh,
}

/// The sweep renews a token that has at most this many seconds left.
pub const RENEWAL_MARGIN: u64 = 86400;

/// The seconds for which a token issued at `last_renewal` for `expires_in`
/// seconds still holds at `now`; zero or less once it has run out.
pub open spec fn seconds_left(last_renewal: u64, expires_in: u64, now: u64) -> int {
    last_renewal + expires_in - now
}

/// What the sweep owes an account at `now`.
pub open spec fn renewal_due(last_renewal: u64, expires_in: u64, now: u64) -> RenewalAction {
    if seconds_left(last_renewal, expires_in, now) <= 0 {
        RenewalAction::Reissue
    } else if seconds_left(last_renewal, expires_in, now) <= RENEWAL_MARGIN {
        RenewalAction::Renew
    } else {
        RenewalAction::Refresh
    }
}

/// What the sweep does at `now` with an account whose token was issued at
/// `last_renewal` for `expires_in` seconds.
pub fn renewal_action(last_renewal: u64, expires_in: u64, now: u64) -> (action: RenewalAction)
    ensures
        action == renewal_due(last_renewal, expires_in, now),
{
    let deadline: u128 = last_renewal as u128 + expires_in as u128;
    let current: u128 = now as u128;
    if deadline <= current {
        RenewalAction::Reissue
    } else if deadline - current <= RENEWAL_MARGIN as u128 {
        RenewalAction::Renew
    } else {
        RenewalAction::Refresh
    }
}

impl Account {
    /// What the sweep does with this account at `now`.
    pub fn renewal_action(&self, now: u64) -> (action: RenewalAction)
        ensures
            action == renewal_due(self@.last_renewal, self@.expires_in, now),
    {
        renewal_action(self.last_renewal, self.token.expires_in, now)
    }
}

/// Whether the member `discord_id` has an account.
pub fn is_user_registered(discord_id: &str, accounts: &Vec<Account>) -> (registered: bool)
    ensures
        registered == user_index(account_views(accounts@), discord_id@).is_some(),
{
    find_by_user(accounts, discord_id).is_some()
}

/// The store after the first account of `member`, if there is one, was
/// changed to `changed`.
pub open spec fn store_with_account(
    store: Seq<AccountView>,
    place: Option<int>,
    changed: AccountView,
) -> Seq<AccountView> {
    match place {
        Some(i) => store.update(i, changed),
        None => store,
    }
}

/// The account with its credential replaced.
pub open spec fn with_auth_id(account: AccountView, auth_id: Seq<char>) -> AccountView {
    AccountView { auth_id: auth_id, ..account }
}

/// The account with its tokens replaced by ones issued at `now`.
pub open spec fn with_token(
    account: AccountView,
    access_token: Seq<char>,
    refresh_token: Seq<char>,
    expires_in: u64,
    now: u64,
) -> AccountView {
    AccountView {
        access_token: access_token,
        refresh_token: refresh_token,
        expires_in: expires_in,
        last_renewal: now,
        ..account
    }
}

/// The account with its profile and groups replaced.
pub open spec fn with_profile(
    account: AccountView,
    user: UserView,
    roles: Seq<Seq<char>>,
) -> AccountView {
    AccountView {
        front: FrontAccountView { discord_user: user, discord_roles: roles, ..account.front },
        ..account
    }
}

/// The views of the account at place `i` after a change that touched
/// nothing but that account.
proof fn lemma_store_updated(
    before: Seq<Account>,
    after: Seq<Account>,
    i: int,
)
    requires
        0 <= i < before.len(),
        after.len() == before.len(),
        forall|k: int| 0 <= k < before.len() && k != i ==> after[k] == before[k],
    ensures
        account_views(after) == account_views(before).update(i, after[i]@),
{
    assert(account_views(after) =~= account_views(before).update(i, after[i]@));
}

/// Replaces the credential of the member `discord_id` by `auth_id`. Where
/// the member has no account, nothing happens.
pub fn update_auth_id(discord_id: &str, auth_id: String, accounts: &mut Vec<Account>) -> (found:
    bool)
    ensures
        found == user_index(account_views(old(accounts)@), discord_id@).is_some(),
        account_views(final(accounts)@) == match user_index(
            account_views(old(accounts)@),
            discord_id@,
        ) {
            Some(i) => account_views(old(accounts)@).update(
                i,
                with_auth_id(account_views(old(accounts)@)[i], auth_id@),
            ),
            None => account_views(old(accounts)@),
        },
{
    match find_by_user(accounts, discord_id) {
        None => false,
        Some(place) => {
            accounts[place].auth_id = auth_id;
            proof {
                lemma_store_updated(old(accounts)@, accounts@, place as int);
            }
            true
        },
    }
}

/// Replaces the tokens of the member `discord_id` by `token`, issued at
/// `now`. Where the member has no account, nothing happens.
pub fn update_token(discord_id: &str, token: Token, now: u64, accounts: &mut Vec<Account>) -> (found:
    bool)
    ensures
        found == user_index(account_views(old(accounts)@), discord_id@).is_some(),
        account_views(final(accounts)@) == match user_index(
            account_views(old(accounts)@),
            discord_id@,
        ) {
            Some(i) => account_views(old(accounts)@).update(
                i,
                with_token(
                    account_views(old(accounts)@)[i],
                    token.access_token@,
                    token.refresh_token@,
                    token.expires_in,
                    now,
                ),
            ),
            None => account_views(old(accounts)@),
        },
{
    match find_by_user(accounts, discord_id) {
        None => false,
        Some(place) => {
            accounts[place].token = token;
            accounts[place].last_renewal = now;
            proof {
                lemma_store_updated(old(accounts)@, accounts@, place as int);
            }
            true
        },
    }
}

/// The groups that the identity provider reported: none at all where it
/// gave no answer.
pub open spec fn reported_roles(member: Option<GuildMember>) -> Seq<Seq<char>> {
    match member {
        Some(m) => texts(m.roles@),
        None => seq![],
    }
}

/// Replaces the profile and the groups of the account with credential
/// `auth_id` by what the identity provider reported. A missing report on
/// the groups counts as membership of no group.
pub fn update_account_discord(
    auth_id: &str,
    user: User,
    member: Option<GuildMember>,
    accounts: &mut Vec<Account>,
) -> (done: Result<(), ReviewError>)
    ensures
        match auth_index(account_views(old(accounts)@), auth_id@) {
            None => done == Err::<(), ReviewError>(ReviewError::NotFound) && account_views(
                final(accounts)@,
            ) == account_views(old(accounts)@),
            Some(i) => done == Ok::<(), ReviewError>(()) && account_views(final(accounts)@)
                == account_views(old(accounts)@).update(
                i,
                with_profile(account_views(old(accounts)@)[i], user@, reported_roles(member)),
            ),
        },
{
    match find_by_auth(accounts, auth_id) {
        None => Err(ReviewError::NotFound),
        Some(place) => {
            let roles: Vec<String> = match member {
                Some(m) => m.roles,
                None => Vec::new(),
            };
            proof {
                assert(texts(roles@) =~= reported_roles(member));
            }
            accounts[place].discord_user = user;
            accounts[place].discord_roles = roles;
            proof {
                lemma_store_updated(old(accounts)@, accounts@, place as int);
            }
            Ok(())
        },
    }
}

/// The account of a member who signs in for the first time at `now`: no
/// sheet, not banned, made and last renewed at `now`.
pub open spec fn new_account(
    user: UserView,
    roles: Seq<Seq<char>>,
    auth_id: Seq<char>,
    access_token: Seq<char>,
    refresh_token: Seq<char>,
    expires_in: u64,
    now: u64,
) -> AccountView {
    AccountView {
        front: FrontAccountView {
            discord_user: user,
            discord_roles: roles,
            fiches: seq![],
            creation_date: now,
            banned: false,
        },
        auth_id: auth_id,
        access_token: access_token,
        refresh_token: refresh_token,
        expires_in: expires_in,
        last_renewal: now,
    }
}

/// The store after the member `user` signed in at `now` with `token` and
/// was given the credential `auth_id`.
///
/// A member who has an account keeps it, with the new credential and the
/// new tokens; the groups reported at sign-in are not looked at. Any other
/// member gets a new account at the end of the store.
pub open spec fn signed_in(
    store: Seq<AccountView>,
    user: UserView,
    roles: Seq<Seq<char>>,
    auth_id: Seq<char>,
    access_token: Seq<char>,
    refresh_token: Seq<char>,
    expires_in: u64,
    now: u64,
) -> Seq<AccountView> {
    match user_index(store, user.id) {
        Some(i) => store.update(
            i,
            with_token(
                with_auth_id(store[i], auth_id),
                access_token,
                refresh_token,
                expires_in,
                now,
            ),
        ),
        None => store.push(
            new_account(user, roles, auth_id, access_token, refresh_token, expires_in, now),
        ),
    }
}

/// Signs the member `user` in at `now`: gives the member's account the
/// credential `auth_id` and the tokens `token`, or makes the account where
/// the member has none. Says whether the account is new.
pub fn sign_in(
    user: User,
    member: Option<GuildMember>,
    auth_id: String,
    token: Token,
    now: u64,
    accounts: &mut Vec<Account>,
) -> (created: bool)
    ensures
        created == user_index(account_views(old(accounts)@), user@.id).is_none(),
        account_views(final(accounts)@) == signed_in(
            account_views(old(accounts)@),
            user@,
            reported_roles(member),
            auth_id@,
            token.access_token@,
            token.refresh_token@,
            token.expires_in,
            now,
        ),
{
    match find_by_user(accounts, user.id.as_str()) {
        Some(place) => {
            accounts[place].auth_id = auth_id;
            accounts[place].token = token;
            accounts[place].last_renewal = now;
            proof {
                lemma_store_updated(old(accounts)@, accounts@, place as int);
            }
            false
        },
        None => {
            let roles: Vec<String> = match member {
                Some(m) => m.roles,
                None => Vec::new(),
            };
            proof {
                assert(texts(roles@) =~= reported_roles(member));
            }
            let account = Account {
                discord_user: user,
                discord_roles: roles,
                auth_id: auth_id,
                token: token,
                last_renewal: now,
                fiches: Vec::new(),
                creation_date: now,
                banned: false,
            };
            proof {
                assert(account@.front.fiches =~= seq![]);
            }
            accounts.push(account);
            proof {
                assert(account_views(accounts@) =~= account_views(old(accounts)@).push(account@));
            }
            true
        },
    }
}

/// What to do with a member about whose groups the identity provider
/// answered with an error.
#[derive(Clone, Copy, Debug, PartialEq, Eq, Structural)]
pub enum JoinAction {
    /// The member is not in the community: an invitation is due.
    Invite,
    /// Anything else went wrong: the answer is handed on as it is.
    Unprocessable,
}

/// What an error code of the identity provider calls for: the code for an
/// unknown community, wherever it stands in `code`, calls for an
/// invitation.
pub open spec fn action_for_code(code: Seq<char>) -> JoinAction {
    if occurs_in(code, "10004"@) {
        JoinAction::Invite
    } else {
        JoinAction::Unprocessable
    }
}

/// What to do with a member about whose groups the identity provider
/// answered with the error `code`.
pub fn join_action(code: &str) -> (action: JoinAction)
    ensures
        action == action_for_code(code@),
{
    if contains_text(code, "10004") {
        JoinAction::Invite
    } else {
        JoinAction::Unprocessable
    }
}

/// What became of a change that was sent to the document store.
#[derive(Clone, Copy, Debug, PartialEq, Eq, Structural)]
pub enum StoreReply {
    /// The store took the change and found this many documents to apply
    /// it to.
    Matched(u64),
    /// The store could not be reached, or failed.
    Failed,
}

/// What the caller is told about a change that was sent to the document
/// store: a change that found no document was aimed at something that
/// does not exist.
pub open spec fn reply_outcome(reply: StoreReply) -> Result<(), ReviewError> {
    match reply {
        StoreReply::Matched(count) => if count > 0 {
            Ok(())
        } else {
            Err(ReviewError::NotFound)
        },
        StoreReply::Failed => Err(ReviewError::UpstreamFailure),
    }
}

/// What the caller is told about a change that was sent to the document
/// store.
pub fn outcome_of_reply(reply: StoreReply) -> (outcome: Result<(), ReviewError>)
    ensures
        outcome == reply_outcome(reply),
{
    match reply {
        StoreReply::Matched(count) => {
            if count > 0 {
                Ok(())
            } else {
                Err(ReviewError::NotFound)
            }
        },
        StoreReply::Failed => Err(ReviewError::UpstreamFailure),
    }
}

} // verus!
