//! The review of one sheet: who may post what, and what an accepted post
//! does to the sheet.
//!
//! A message asks for a change of state unless its `set_state` is
//! `Comment`. The `is_comment` flag of a stored message always agrees with
//! that: a message that sets the flag and still names a state is refused,
//! and one that names `Comment` without the flag is stored with the flag
//! set.

use crate::fiche_rp::{
    history_current, message_views, message_well_formed, sheet_sound, snapshot_of,
    version_views, FicheRP, FicheState, FicheVersion, FicheView, MessageView, ReviewMessage,
};
use crate::permissions::{staff_role, DiscordRole};
use vstd::prelude::*;

verus! {

/// Why a request was turned down.
#[derive(Clone, Copy, Debug, PartialEq, Eq, Structural)]
pub enum ReviewError {
    /// The account or sheet asked for does not exist.
    NotFound,
    /// The credential is unknown, or the caller's role does not allow the
    /// request.
    Unauthorized,
    /// The caller asked too often.
    RateLimited,
    /// The document store or the identity provider failed.
    UpstreamFailure,
    /// The request is malformed.
    ValidationFailure,
}

/// The states that a decision can move a sheet to.
pub open spec fn decision_target(target: FicheState) -> bool {
    target == FicheState::RequestModification || target == FicheState::StaffValidated || target
        == FicheState::Accepted || target == FicheState::Refused
}

/// Whether `role` may decide that a sheet moves to `target`. Everybody on
/// the staff may ask for modifications, find a sheet conformant or refuse
/// it; the final acceptance is for lead scenarists and administrators.
pub open spec fn may_decide(role: DiscordRole, target: FicheState) -> bool {
    decision_target(target) && staff_role(role) && (target == FicheState::Accepted ==> role
        != DiscordRole::Scenarist)
}

/// Why a message is turned down, or `None` when it is taken.
///
/// Only the owner of the sheet and the staff may post at all. A comment is
/// open to both; a decision needs a role that may take it. A message that
/// is flagged as a comment and names a state, or that asks for `Waiting`,
/// is malformed.
pub open spec fn review_error(
    role: DiscordRole,
    is_owner: bool,
    is_comment: bool,
    set_state: FicheState,
) -> Option<ReviewError> {
    if !is_owner && !staff_role(role) {
        Some(ReviewError::Unauthorized)
    } else if is_comment && set_state != FicheState::Comment {
        Some(ReviewError::ValidationFailure)
    } else if set_state == FicheState::Comment {
        None
    } else if !decision_target(set_state) {
        Some(ReviewError::ValidationFailure)
    } else if may_decide(role, set_state) {
        None
    } else {
        Some(ReviewError::Unauthorized)
    }
}

/// The state of a sheet after a message that names `set_state` was taken.
pub open spec fn state_after(current: FicheState, set_state: FicheState) -> FicheState {
    if set_state == FicheState::Comment {
        current
    } else {
        set_state
    }
}

/// The message as it is stored: flagged as a comment exactly if it names
/// no state.
pub open spec fn stored_message(message: MessageView) -> MessageView {
    MessageView { is_comment: message.set_state == FicheState::Comment, ..message }
}

/// The sheet after `message` was taken: the message is the newest entry of
/// the log, and the state is the one it names, if it names one.
pub open spec fn reviewed(fiche: FicheView, message: MessageView) -> FicheView {
    FicheView {
        state: state_after(fiche.state, message.set_state),
        messages: fiche.messages.push(stored_message(message)),
        ..fiche
    }
}

/// Whether `role` may decide that a sheet moves to `target`.
pub fn can_decide(role: DiscordRole, target: FicheState) -> (allowed: bool)
    ensures
        allowed == may_decide(role, target),
{
    match target {
        FicheState::RequestModification => role.is_staff(),
        FicheState::StaffValidated => role.is_staff(),
        FicheState::Refused => role.is_staff(),
        FicheState::Accepted => match role {
            DiscordRole::PlatformAdmin => true,
            DiscordRole::Admin => true,
            DiscordRole::LeadScenarist => true,
            _ => false,
        },
        _ => false,
    }
}

/// The states that `role` may move a sheet to, in the order in which the
/// states are declared.
pub open spec fn targets_of(role: DiscordRole) -> Seq<FicheState> {
    if !staff_role(role) {
        seq![]
    } else if role == DiscordRole::Scenarist {
        seq![FicheState::RequestModification, FicheState::StaffValidated, FicheState::Refused]
    } else {
        seq![
            FicheState::RequestModification,
            FicheState::StaffValidated,
            FicheState::Accepted,
            FicheState::Refused,
        ]
    }
}

/// The states that `role` may move a sheet to: exactly those for which
/// [`can_decide`] holds, in the order in which the states are declared.
pub fn decision_targets(role: DiscordRole) -> (targets: Vec<FicheState>)
    ensures
        targets@ == targets_of(role),
        forall|state: FicheState| targets@.contains(state) <==> may_decide(role, state),
{
    let mut targets: Vec<FicheState> = Vec::new();
    if can_decide(role, FicheState::RequestModification) {
        targets.push(FicheState::RequestModification);
    }
    if can_decide(role, FicheState::StaffValidated) {
        targets.push(FicheState::StaffValidated);
    }
    if can_decide(role, FicheState::Accepted) {
        targets.push(FicheState::Accepted);
    }
    if can_decide(role, FicheState::Refused) {
        targets.push(FicheState::Refused);
    }
    proof {
        assert(targets@ =~= targets_of(role));
        assert forall|state: FicheState| targets@.contains(state) <==> may_decide(
            role,
            state,
        ) by {
            if may_decide(role, state) {
                if state == FicheState::RequestModification {
                    assert(targets@[0] == state);
                } else if state == FicheState::StaffValidated {
                    assert(targets@[1] == state);
                } else if state == FicheState::Accepted {
                    assert(targets@[2] == state);
                } else if role == DiscordRole::Scenarist {
                    assert(targets@[2] == state);
                } else {
                    assert(targets@[3] == state);
                }
            }
        }
    }
    targets
}

/// Judges a message before it touches a sheet.
pub fn check_review(role: DiscordRole, is_owner: bool, message: &ReviewMessage) -> (verdict:
    Result<(), ReviewError>)
    ensures
        verdict == match review_error(role, is_owner, message.is_comment, message.set_state) {
            Some(error) => Err::<(), ReviewError>(error),
            None => Ok::<(), ReviewError>(()),
        },
{
    if !is_owner && !role.is_staff() {
        return Err(ReviewError::Unauthorized);
    }
    let names_state: bool = match message.set_state {
        FicheState::Comment => false,
        _ => true,
    };
    if message.is_comment && names_state {
        return Err(ReviewError::ValidationFailure);
    }
    if !names_state {
        return Ok(());
    }
    match message.set_state {
        FicheState::Waiting => Err(ReviewError::ValidationFailure),
        _ => {
            if can_decide(role, message.set_state) {
                Ok(())
            } else {
                Err(ReviewError::Unauthorized)
            }
        },
    }
}

/// Why a modification is turned down, or `None` when it is taken: only the
/// owner may modify a sheet, and only while a modification is asked for.
pub open spec fn modification_error(is_owner: bool, state: FicheState) -> Option<ReviewError> {
    if !is_owner || state != FicheState::RequestModification {
        Some(ReviewError::Unauthorized)
    } else {
        None
    }
}

/// The sheet after its owner handed in `submitted` as a modification: name,
/// post, description and lore are those of `submitted`, the sheet waits for
/// review again, and one snapshot of `submitted` is added to the history.
pub open spec fn modified(fiche: FicheView, submitted: FicheView) -> FicheView {
    FicheView {
        name: submitted.name,
        job: submitted.job,
        description: submitted.description,
        lore: submitted.lore,
        state: FicheState::Waiting,
        version: fiche.version.push(snapshot_of(submitted)),
        ..fiche
    }
}

/// The sheet as it is opened from `submitted`: under `id`, in `state`, with
/// an empty log and a history of one snapshot.
pub open spec fn opened(submitted: FicheView, id: Seq<char>, state: FicheState) -> FicheView {
    FicheView {
        id: id,
        state: state,
        messages: seq![],
        version: seq![snapshot_of(submitted)],
        ..submitted
    }
}

impl FicheRP {
    /// Takes `message` from a caller who acts as `role`, if the caller may
    /// post it.
    ///
    /// On success the message is the newest entry of the log and the sheet
    /// is in the state that the message names, if it names one. A refused
    /// message leaves the sheet untouched.
    pub fn apply_review(&mut self, message: ReviewMessage, role: DiscordRole, is_owner: bool) -> (done:
        Result<(), ReviewError>)
        ensures
            done == match review_error(role, is_owner, message.is_comment, message.set_state) {
                Some(error) => Err::<(), ReviewError>(error),
                None => Ok::<(), ReviewError>(()),
            },
            done.is_ok() ==> final(self)@ == reviewed(old(self)@, message@),
            done.is_err() ==> *final(self) == *old(self),
            sheet_sound(old(self)@) ==> sheet_sound(final(self)@),
    {
        match check_review(role, is_owner, &message) {
            Err(error) => Err(error),
            Ok(()) => {
                let mut stored = message;
                match stored.set_state {
                    FicheState::Comment => {
                        stored.is_comment = true;
                    },
                    _ => {
                        stored.is_comment = false;
                        self.state = stored.set_state;
                    },
                }
                self.messages.push(stored);
                proof {
                    assert(stored@ == stored_message(message@));
                    assert(message_views(self.messages@) =~= message_views(
                        old(self).messages@,
                    ).push(stored@));
                }
                Ok(())
            },
        }
    }

    /// Takes `submitted` as a modification of the sheet, if the caller owns
    /// the sheet and a modification was asked for.
    ///
    /// On success the sheet says what `submitted` says, waits for review
    /// again, and its history is one snapshot longer. A refused
    /// modification leaves the sheet untouched.
    pub fn apply_modification(&mut self, submitted: FicheRP, is_owner: bool) -> (done: Result<
        (),
        ReviewError,
    >)
        ensures
            done == match modification_error(is_owner, old(self).state) {
                Some(error) => Err::<(), ReviewError>(error),
                None => Ok::<(), ReviewError>(()),
            },
            done.is_ok() ==> final(self)@ == modified(old(self)@, submitted@),
            done.is_ok() ==> history_current(final(self)@),
            done.is_err() ==> *final(self) == *old(self),
            sheet_sound(old(self)@) ==> sheet_sound(final(self)@),
    {
        let asked: bool = match self.state {
            FicheState::RequestModification => true,
            _ => false,
        };
        if !is_owner || !asked {
            return Err(ReviewError::Unauthorized);
        }
        let taken = submitted.snapshot();
        self.name = submitted.name;
        self.job = submitted.job;
        self.description = submitted.description;
        self.lore = submitted.lore;
        self.state = FicheState::Waiting;
        self.version.push(taken);
        proof {
            assert(version_views(self.version@) =~= version_views(old(self).version@).push(
                taken@,
            ));
        }
        Ok(())
    }

    /// Opens a sheet from `submitted`: under `id`, in `state`, with an empty
    /// log and a history of the one snapshot of what was submitted.
    pub fn open(submitted: FicheRP, id: String, state: FicheState) -> (fiche: FicheRP)
        ensures
            fiche@ == opened(submitted@, id@, state),
            history_current(fiche@),
            state != FicheState::Comment ==> sheet_sound(fiche@),
    {
        let taken = submitted.snapshot();
        let mut version: Vec<FicheVersion> = Vec::new();
        version.push(taken);
        let fiche = FicheRP {
            id: id,
            name: submitted.name,
            job: submitted.job,
            description: submitted.description,
            lore: submitted.lore,
            submission_date: submitted.submission_date,
            messages: Vec::new(),
            version: version,
            state: state,
        };
        proof {
            assert(fiche@.messages =~= seq![]);
            assert(fiche@.version =~= seq![snapshot_of(submitted@)]);
        }
        fiche
    }
}

/// Posting the same comment twice adds two entries to the log, one after
/// the other, and leaves the state of the sheet alone both times.
pub proof fn law_comments_accumulate(fiche: FicheView, comment: MessageView)
    requires
        comment.is_comment,
        comment.set_state == FicheState::Comment,
    ensures
        reviewed(fiche, comment).state == fiche.state,
        reviewed(reviewed(fiche, comment), comment).state == fiche.state,
        reviewed(reviewed(fiche, comment), comment).messages == fiche.messages.push(comment).push(
            comment,
        ),
        reviewed(reviewed(fiche, comment), comment).messages.len() == fiche.messages.len() + 2,
{
}

/// Whether a message is taken does not depend on the sheet: the owner and
/// everybody on the staff may comment, as often as they like.
pub proof fn law_comment_open_to_owner_and_staff(role: DiscordRole, is_owner: bool)
    requires
        is_owner || staff_role(role),
    ensures
        review_error(role, is_owner, true, FicheState::Comment).is_none(),
        review_error(role, is_owner, false, FicheState::Comment).is_none(),
{
}

/// A waiting sheet that a scenarist asks to be modified moves to
/// `RequestModification`; the modification that its owner then hands in
/// moves it back to `Waiting` and adds exactly one snapshot to its history.
pub proof fn law_modification_round_trip(
    fiche: FicheView,
    decision: MessageView,
    submitted: FicheView,
)
    requires
        fiche.state == FicheState::Waiting,
        !decision.is_comment,
        decision.set_state == FicheState::RequestModification,
    ensures
        review_error(DiscordRole::Scenarist, false, decision.is_comment, decision.set_state)
            .is_none(),
        reviewed(fiche, decision).state == FicheState::RequestModification,
        modification_error(true, reviewed(fiche, decision).state).is_none(),
        modified(reviewed(fiche, decision), submitted).state == FicheState::Waiting,
        modified(reviewed(fiche, decision), submitted).version == fiche.version.push(
            snapshot_of(submitted),
        ),
        modified(reviewed(fiche, decision), submitted).version.len() == fiche.version.len() + 1,
{
}

/// A decision that its author may take puts the sheet in the state it
/// names and makes the log one entry longer.
pub proof fn law_decision_sets_state(
    fiche: FicheView,
    decision: MessageView,
    role: DiscordRole,
    is_owner: bool,
)
    requires
        !decision.is_comment,
        may_decide(role, decision.set_state),
    ensures
        review_error(role, is_owner, decision.is_comment, decision.set_state).is_none(),
        reviewed(fiche, decision).state == decision.set_state,
        reviewed(fiche, decision).messages.len() == fiche.messages.len() + 1,
        reviewed(fiche, decision).messages.last() == decision,
{
}

/// A plain user can post nothing on a sheet of somebody else, and can
/// decide nothing even on a sheet of their own.
pub proof fn law_plain_user_decides_nothing(
    is_owner: bool,
    is_comment: bool,
    set_state: FicheState,
)
    ensures
        review_error(DiscordRole::User, false, is_comment, set_state) == Some(
            ReviewError::Unauthorized,
        ),
        decision_target(set_state) && !is_comment ==> review_error(
            DiscordRole::User,
            is_owner,
            is_comment,
            set_state,
        ) == Some(ReviewError::Unauthorized),
{
}

/// Reviewing keeps a sheet sound: no accepted message puts a sheet in the
/// `Comment` state, every stored message is well formed, and the entries
/// already in the log stay as they are.
pub proof fn law_review_keeps_sheet_sound(
    fiche: FicheView,
    message: MessageView,
    role: DiscordRole,
    is_owner: bool,
)
    requires
        fiche.state != FicheState::Comment,
        forall|i: int| 0 <= i < fiche.messages.len() ==> message_well_formed(fiche.messages[i]),
        review_error(role, is_owner, message.is_comment, message.set_state).is_none(),
    ensures
        reviewed(fiche, message).state != FicheState::Comment,
        forall|i: int|
            0 <= i < reviewed(fiche, message).messages.len() ==> message_well_formed(
                #[trigger] reviewed(fiche, message).messages[i],
            ),
        forall|i: int|
            0 <= i < fiche.messages.len() ==> reviewed(fiche, message).messages[i]
                == fiche.messages[i],
        reviewed(fiche, message).version == fiche.version,
{
}

} // verus!
