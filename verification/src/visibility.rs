//! What a viewer gets to see of the review logs.
//!
//! A private message is for the staff and for the owner of the sheet it
//! stands on. Everybody else gets the log without it.

use crate::fiche_rp::{
    clone_messages, clone_versions, message_views, FicheRP, FicheView, MessageView,
    ReviewMessage,
};
use crate::text::same_text;
use crate::user::{
    clone_texts, fiche_views, Account, AccountView, FrontAccount, FrontAccountView,
};
use vstd::prelude::*;

verus! {

/// The messages of `log` that are not private, in the order of `log`.
pub open spec fn public_messages(log: Seq<MessageView>) -> Seq<MessageView>
    decreases log.len(),
{
    if log.len() == 0 {
        seq![]
    } else {
        let earlier = public_messages(log.drop_last());
        if log.last().is_private {
            earlier
        } else {
            earlier.push(log.last())
        }
    }
}

/// The log as a viewer gets it: whole for one who sees private messages,
/// without them for anybody else.
pub open spec fn visible_messages(log: Seq<MessageView>, sees_private: bool) -> Seq<MessageView> {
    if sees_private {
        log
    } else {
        public_messages(log)
    }
}

/// The sheet as a viewer gets it: only the log depends on the viewer.
pub open spec fn visible_fiche(fiche: FicheView, sees_private: bool) -> FicheView {
    FicheView { messages: visible_messages(fiche.messages, sees_private), ..fiche }
}

/// The sheets of one account as a viewer gets them.
pub open spec fn visible_fiches(fiches: Seq<FicheView>, sees_private: bool) -> Seq<FicheView> {
    Seq::new(fiches.len(), |i: int| visible_fiche(fiches[i], sees_private))
}

/// Whether a viewer sees the private messages on the sheets of `account`:
/// the staff see them everywhere, a member on the member's own sheets.
pub open spec fn sees_private_of(account: FrontAccountView, viewer_id: Seq<char>, staff: bool) -> bool {
    staff || account.discord_user.id == viewer_id
}

/// The account as the viewer `viewer_id` gets it.
pub open spec fn visible_account(
    account: FrontAccountView,
    viewer_id: Seq<char>,
    staff: bool,
) -> FrontAccountView {
    FrontAccountView {
        fiches: visible_fiches(account.fiches, sees_private_of(account, viewer_id, staff)),
        ..account
    }
}

/// The store as the viewer `viewer_id` gets it: every account, in order.
pub open spec fn visible_store(store: Seq<AccountView>, viewer_id: Seq<char>, staff: bool) -> Seq<
    FrontAccountView,
> {
    Seq::new(store.len(), |i: int| visible_account(store[i].front, viewer_id, staff))
}

/// The views of a list of visible accounts, in order.
pub open spec fn front_views(accounts: Seq<FrontAccount>) -> Seq<FrontAccountView> {
    Seq::new(accounts.len(), |i: int| accounts[i]@)
}

/// A copy of `log` without its private messages.
pub fn retain_public(log: &Vec<ReviewMessage>) -> (kept: Vec<ReviewMessage>)
    ensures
        message_views(kept@) == public_messages(message_views(log@)),
{
    let ghost views = message_views(log@);
    let mut kept: Vec<ReviewMessage> = Vec::new();
    let mut i: usize = 0;
    while i < log.len()
        invariant
            i <= log.len(),
            views == message_views(log@),
            message_views(kept@) == public_messages(views.take(i as int)),
        decreases log.len() - i,
    {
        proof {
            assert(views.take(i + 1).drop_last() =~= views.take(i as int));
            assert(views.take(i + 1).last() == log@[i as int]@);
        }
        if !log[i].is_private {
            let ghost before = message_views(kept@);
            let copy = log[i].clone();
            kept.push(copy);
            proof {
                assert(message_views(kept@) =~= before.push(copy@));
            }
        }
        i = i + 1;
    }
    proof {
        assert(views.take(i as int) =~= views);
    }
    kept
}

/// A copy of `log` as a viewer gets it.
pub fn messages_for_viewer(log: &Vec<ReviewMessage>, sees_private: bool) -> (shown: Vec<
    ReviewMessage,
>)
    ensures
        message_views(shown@) == visible_messages(message_views(log@), sees_private),
{
    if sees_private {
        clone_messages(log)
    } else {
        retain_public(log)
    }
}

/// A copy of `fiche` as a viewer gets it.
pub fn fiche_for_viewer(fiche: &FicheRP, sees_private: bool) -> (shown: FicheRP)
    ensures
        shown@ == visible_fiche(fiche@, sees_private),
{
    FicheRP {
        id: fiche.id.clone(),
        name: fiche.name.clone(),
        job: fiche.job.clone(),
        description: fiche.description.clone(),
        lore: fiche.lore.clone(),
        submission_date: fiche.submission_date,
        messages: messages_for_viewer(&fiche.messages, sees_private),
        version: clone_versions(&fiche.version),
        state: fiche.state,
    }
}

/// A copy of `account` as the viewer `viewer_id` gets it.
pub fn account_for_viewer(account: &Account, viewer_id: &str, staff: bool) -> (shown: FrontAccount)
    ensures
        shown@ == visible_account(account@.front, viewer_id@, staff),
{
    let sees_private = staff || same_text(account.discord_user.id.as_str(), viewer_id);
    let mut fiches: Vec<FicheRP> = Vec::new();
    let mut i: usize = 0;
    while i < account.fiches.len()
        invariant
            i <= account.fiches.len(),
            fiches@.len() == i,
            forall|k: int|
                0 <= k < i ==> fiches@[k]@ == visible_fiche(account.fiches@[k]@, sees_private),
        decreases account.fiches.len() - i,
    {
        fiches.push(fiche_for_viewer(&account.fiches[i], sees_private));
        i = i + 1;
    }
    proof {
        assert(fiche_views(fiches@) =~= visible_fiches(
            fiche_views(account.fiches@),
            sees_private,
        ));
    }
    FrontAccount {
        discord_user: account.discord_user.clone(),
        discord_roles: clone_texts(&account.discord_roles),
        fiches: fiches,
        creation_date: account.creation_date,
        banned: account.banned,
    }
}

/// The public messages of a log are exactly its messages that are not
/// private: none of them is private, each stands in the log, and no message
/// of the log that is not private is missing.
pub proof fn law_public_messages_exact(log: Seq<MessageView>)
    ensures
        forall|i: int|
            0 <= i < public_messages(log).len() ==> !(#[trigger] public_messages(log)[i]).is_private
                && log.contains(public_messages(log)[i]),
        forall|i: int|
            0 <= i < log.len() && !(#[trigger] log[i]).is_private ==> public_messages(log).contains(
                log[i],
            ),
        public_messages(log).len() <= log.len(),
    decreases log.len(),
{
    if log.len() > 0 {
        let shorter = log.drop_last();
        let earlier = public_messages(shorter);
        let kept = public_messages(log);
        law_public_messages_exact(shorter);
        assert forall|i: int| 0 <= i < kept.len() implies !(#[trigger] kept[i]).is_private
            && log.contains(kept[i]) by {
            if i < earlier.len() {
                assert(kept[i] == earlier[i]);
                assert(shorter.contains(earlier[i]));
                let k = choose|k: int| 0 <= k < shorter.len() && shorter[k] == earlier[i];
                assert(log[k] == kept[i]);
            } else {
                assert(kept[i] == log.last());
                assert(log[log.len() - 1] == kept[i]);
            }
        }
        assert forall|i: int| 0 <= i < log.len() && !(#[trigger] log[i]).is_private implies kept.contains(
            log[i],
        ) by {
            if i < shorter.len() {
                assert(shorter[i] == log[i]);
                assert(earlier.contains(shorter[i]));
                let k = choose|k: int| 0 <= k < earlier.len() && earlier[k] == shorter[i];
                assert(kept[k] == log[i]);
            } else {
                assert(kept[kept.len() - 1] == log[i]);
            }
        }
    }
}

/// A private message never reaches a viewer who is neither on the staff nor
/// the owner of the sheet; the staff and the owner get the log as it is.
pub proof fn law_private_messages_stay_private(
    account: FrontAccountView,
    viewer_id: Seq<char>,
    staff: bool,
    f: int,
    message: MessageView,
)
    requires
        0 <= f < account.fiches.len(),
        account.fiches[f].messages.contains(message),
        message.is_private,
    ensures
        !staff && account.discord_user.id != viewer_id ==> !visible_account(
            account,
            viewer_id,
            staff,
        ).fiches[f].messages.contains(message),
        staff || account.discord_user.id == viewer_id ==> visible_account(
            account,
            viewer_id,
            staff,
        ).fiches[f].messages == account.fiches[f].messages,
{
    let log = account.fiches[f].messages;
    law_public_messages_exact(log);
    if !staff && account.discord_user.id != viewer_id {
        let shown = visible_account(account, viewer_id, staff).fiches[f].messages;
        assert(shown == public_messages(log));
        if shown.contains(message) {
            let k = choose|k: int| 0 <= k < shown.len() && shown[k] == message;
            assert(!shown[k].is_private);
        }
    }
}

} // verus!
