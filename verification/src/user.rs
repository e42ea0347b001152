//! Accounts: who a member is, what groups the member belongs to, and the
//! sheets the member owns.

use crate::fiche_rp::{FicheRP, FicheView};
use crate::permissions::texts;
use crate::text::same_text;
use vstd::prelude::*;

verus! {

/// What the identity provider tells about a member.
#[derive(Debug, PartialEq)]
pub struct User {
    pub id: String,
    pub global_name: String,
    pub avatar: String,
}

/// A member's profile, with text as plain characters.
pub ghost struct UserView {
    pub id: Seq<char>,
    pub global_name: Seq<char>,
    pub avatar: Seq<char>,
}

impl View for User {
    type V = UserView;

    open spec fn view(&self) -> UserView {
        UserView { id: self.id@, global_name: self.global_name@, avatar: self.avatar@ }
    }
}

impl Clone for User {
    fn clone(&self) -> (copy: Self)
        ensures
            copy == *self,
    {
        User {
            id: self.id.clone(),
            global_name: self.global_name.clone(),
            avatar: self.avatar.clone(),
        }
    }
}

impl Default for User {
    fn default() -> (user: Self)
        ensures
            user@ == (UserView { id: seq![], global_name: seq![], avatar: seq![] }),
    {
        User { id: String::new(), global_name: String::new(), avatar: String::new() }
    }
}

impl User {
    /// Whether two profiles say the same in every field.
    pub fn same_as(&self, other: &User) -> (same: bool)
        ensures
            same == (self@ == other@),
    {
        same_text(self.id.as_str(), other.id.as_str()) && same_text(
            self.global_name.as_str(),
            other.global_name.as_str(),
        ) && same_text(self.avatar.as_str(), other.avatar.as_str())
    }
}

/// What the identity provider answers to a question about the bearer of
/// a token.
#[derive(Debug, PartialEq)]
pub struct DiscordAuthorizationInformation {
    pub expires: String,
    pub user: User,
}

/// The groups of one member, as the identity provider lists them.
#[derive(Debug, PartialEq)]
pub struct GuildMember {
    pub roles: Vec<String>,
}

/// The members trusted as platform administrators whatever their groups.
#[derive(Debug, PartialEq)]
pub struct WebsiteMeta {
    pub whitelist: Vec<String>,
}

impl Default for WebsiteMeta {
    fn default() -> (meta: Self)
        ensures
            meta.whitelist@.len() == 0,
    {
        WebsiteMeta { whitelist: Vec::new() }
    }
}

/// Whether `id` is one of `list`.
pub open spec fn listed(list: Seq<Seq<char>>, id: Seq<char>) -> bool {
    list.contains(id)
}

/// Whether `id` is one of the texts of `list`.
pub fn is_listed(list: &Vec<String>, id: &str) -> (found: bool)
    ensures
        found == listed(texts(list@), id@),
{
    let mut i: usize = 0;
    while i < list.len()
        invariant
            i <= list.len(),
            forall|k: int| 0 <= k < i ==> list@[k]@ != id@,
        decreases list.len() - i,
    {
        if same_text(list[i].as_str(), id) {
            proof {
                assert(texts(list@)[i as int] == id@);
            }
            return true;
        }
        i = i + 1;
    }
    proof {
        assert forall|k: int| 0 <= k < texts(list@).len() implies texts(list@)[k] != id@ by {
            assert(texts(list@)[k] == list@[k]@);
        }
    }
    false
}

impl WebsiteMeta {
    /// Whether the member `user_id` is on the whitelist.
    pub fn is_whitelisted(&self, user_id: &str) -> (found: bool)
        ensures
            found == listed(texts(self.whitelist@), user_id@),
    {
        is_listed(&self.whitelist, user_id)
    }
}

/// A copy of a list of texts.
pub fn clone_texts(list: &Vec<String>) -> (copy: Vec<String>)
    ensures
        copy@ == list@,
{
    let mut copy: Vec<String> = Vec::new();
    let mut i: usize = 0;
    while i < list.len()
        invariant
            i <= list.len(),
            copy@ == list@.take(i as int),
        decreases list.len() - i,
    {
        copy.push(list[i].clone());
        proof {
            assert(copy@ =~= list@.take(i + 1));
        }
        i = i + 1;
    }
    proof {
        assert(list@.take(i as int) =~= list@);
    }
    copy
}

/// The views of the accounts of a store, in order.
pub open spec fn account_views(accounts: Seq<Account>) -> Seq<AccountView> {
    Seq::new(accounts.len(), |i: int| accounts[i]@)
}

/// The views of the sheets of a list, in order.
pub open spec fn fiche_views(fiches: Seq<FicheRP>) -> Seq<FicheView> {
    Seq::new(fiches.len(), |i: int| fiches[i]@)
}

/// A copy of a list of sheets.
pub fn clone_fiches(fiches: &Vec<FicheRP>) -> (copy: Vec<FicheRP>)
    ensures
        fiche_views(copy@) == fiche_views(fiches@),
{
    let mut copy: Vec<FicheRP> = Vec::new();
    let mut i: usize = 0;
    while i < fiches.len()
        invariant
            i <= fiches.len(),
            copy@.len() == i,
            forall|k: int| 0 <= k < i ==> copy@[k]@ == fiches@[k]@,
        decreases fiches.len() - i,
    {
        copy.push(fiches[i].clone());
        i = i + 1;
    }
    proof {
        assert(fiche_views(copy@) =~= fiche_views(fiches@));
    }
    copy
}

/// What others may see of an account.
#[derive(Debug, PartialEq)]
pub struct FrontAccount {
    pub discord_user: User,
    pub discord_roles: Vec<String>,
    pub fiches: Vec<FicheRP>,
    pub creation_date: u64,
    pub banned: bool,
}

/// The visible part of an account, as plain values.
pub ghost struct FrontAccountView {
    pub discord_user: UserView,
    pub discord_roles: Seq<Seq<char>>,
    pub fiches: Seq<FicheView>,
    pub creation_date: u64,
    pub banned: bool,
}

impl View for FrontAccount {
    type V = FrontAccountView;

    open spec fn view(&self) -> FrontAccountView {
        FrontAccountView {
            discord_user: self.discord_user@,
            discord_roles: texts(self.discord_roles@),
            fiches: fiche_views(self.fiches@),
            creation_date: self.creation_date,
            banned: self.banned,
        }
    }
}

impl Clone for FrontAccount {
    fn clone(&self) -> (copy: Self)
        ensures
            copy@ == self@,
    {
        FrontAccount {
            discord_user: self.discord_user.clone(),
            discord_roles: clone_texts(&self.discord_roles),
            fiches: clone_fiches(&self.fiches),
            creation_date: self.creation_date,
            banned: self.banned,
        }
    }
}

/// The tokens that the identity provider issued for an account, and for
/// how many seconds from their issue the access token holds.
#[derive(Debug, PartialEq)]
pub struct Token {
    pub access_token: String,
    pub refresh_token: String,
    pub expires_in: u64,
}

/// An account as it is stored.
#[derive(Debug, PartialEq)]
pub struct Account {
    pub discord_user: User,
    pub discord_roles: Vec<String>,
    pub auth_id: String,
    pub token: Token,
    pub last_renewal: u64,
    pub fiches: Vec<FicheRP>,
    pub creation_date: u64,
    pub banned: bool,
}

/// A stored account, as plain values: what others may see of it, and
/// beside that the credential and the tokens.
pub ghost struct AccountView {
    pub front: FrontAccountView,
    pub auth_id: Seq<char>,
    pub access_token: Seq<char>,
    pub refresh_token: Seq<char>,
    pub expires_in: u64,
    pub last_renewal: u64,
}

impl View for Account {
    type V = AccountView;

    open spec fn view(&self) -> AccountView {
        AccountView {
            front: FrontAccountView {
                discord_user: self.discord_user@,
                discord_roles: texts(self.discord_roles@),
                fiches: fiche_views(self.fiches@),
                creation_date: self.creation_date,
                banned: self.banned,
            },
            auth_id: self.auth_id@,
            access_token: self.token.access_token@,
            refresh_token: self.token.refresh_token@,
            expires_in: self.token.expires_in,
            last_renewal: self.last_renewal,
        }
    }
}

impl Account {
    /// What others may see of the account: everything but the credential
    /// and the tokens.
    pub fn to_front(&self) -> (front: FrontAccount)
        ensures
            front@ == self@.front,
    {
        FrontAccount {
            discord_user: self.discord_user.clone(),
            discord_roles: clone_texts(&self.discord_roles),
            fiches: clone_fiches(&self.fiches),
            creation_date: self.creation_date,
            banned: self.banned,
        }
    }
}

} // verus!
