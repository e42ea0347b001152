use ficherp::fiche_rp::{FicheRP, FicheState, FicheVersion, Job, ReviewMessage};
use ficherp::permissions::DiscordRole;
use ficherp::review::{can_decide, check_review, decision_targets, ReviewError};

fn sheet(id: &str, state: FicheState) -> FicheRP {
    FicheRP {
        id: id.to_string(),
        name: "Roger".to_string(),
        job: Job::ClassD,
        description: "grand".to_string(),
        lore: "ancien".to_string(),
        submission_date: 10,
        messages: vec![],
        version: vec![FicheVersion {
            name: "Roger".to_string(),
            job: Job::ClassD,
            description: "grand".to_string(),
            lore: "ancien".to_string(),
            submission_date: 10,
        }],
        state,
    }
}

fn message(is_comment: bool, set_state: FicheState) -> ReviewMessage {
    ReviewMessage {
        discord_id: "42".to_string(),
        content: "lu".to_string(),
        date: 20,
        is_private: false,
        is_comment,
        set_state,
    }
}

#[test]
fn lead_accepts_a_waiting_sheet() {
    let mut fiche = sheet("s1", FicheState::Waiting);
    let decision = message(false, FicheState::Accepted);
    assert_eq!(fiche.apply_review(decision.clone(), DiscordRole::LeadScenarist, false), Ok(()));
    assert_eq!(fiche.state, FicheState::Accepted);
    assert_eq!(fiche.messages.len(), 1);
    assert_eq!(fiche.messages[0], decision);
}

#[test]
fn plain_user_who_is_not_the_owner_is_unauthorized() {
    let mut fiche = sheet("s1", FicheState::Waiting);
    let before = fiche.clone();
    let decision = message(false, FicheState::Accepted);
    assert_eq!(
        fiche.apply_review(decision, DiscordRole::User, false),
        Err(ReviewError::Unauthorized)
    );
    assert_eq!(fiche.state, FicheState::Waiting);
    assert_eq!(fiche.messages.len(), 0);
    assert_eq!(fiche, before);
}

#[test]
fn the_same_comment_twice_gives_two_entries_and_no_change_of_state() {
    let mut fiche = sheet("s1", FicheState::StaffValidated);
    let comment = message(true, FicheState::Comment);
    assert_eq!(fiche.apply_review(comment.clone(), DiscordRole::User, true), Ok(()));
    assert_eq!(fiche.state, FicheState::StaffValidated);
    assert_eq!(fiche.apply_review(comment.clone(), DiscordRole::User, true), Ok(()));
    assert_eq!(fiche.state, FicheState::StaffValidated);
    assert_eq!(fiche.messages, vec![comment.clone(), comment]);
}

#[test]
fn modification_round_trip() {
    let mut fiche = sheet("s1", FicheState::Waiting);
    let ask = message(false, FicheState::RequestModification);
    assert_eq!(fiche.apply_review(ask, DiscordRole::Scenarist, false), Ok(()));
    assert_eq!(fiche.state, FicheState::RequestModification);

    let mut submitted = sheet("ignored", FicheState::Accepted);
    submitted.name = "Roger II".to_string();
    submitted.job = Job::Other("Technicien".to_string());
    submitted.description = "plus grand".to_string();
    submitted.lore = "plus ancien".to_string();
    submitted.submission_date = 99;
    assert_eq!(fiche.apply_modification(submitted, true), Ok(()));

    assert_eq!(fiche.state, FicheState::Waiting);
    assert_eq!(fiche.id, "s1");
    assert_eq!(fiche.name, "Roger II");
    assert_eq!(fiche.job, Job::Other("Technicien".to_string()));
    assert_eq!(fiche.description, "plus grand");
    assert_eq!(fiche.lore, "plus ancien");
    assert_eq!(fiche.submission_date, 10);
    assert_eq!(fiche.messages.len(), 1);
    assert_eq!(fiche.version.len(), 2);
    assert_eq!(
        fiche.version[1],
        FicheVersion {
            name: "Roger II".to_string(),
            job: Job::Other("Technicien".to_string()),
            description: "plus grand".to_string(),
            lore: "plus ancien".to_string(),
            submission_date: 99,
        }
    );
}

#[test]
fn modification_needs_the_owner_and_a_request() {
    let mut fiche = sheet("s1", FicheState::RequestModification);
    let before = fiche.clone();
    assert_eq!(
        fiche.apply_modification(sheet("x", FicheState::Waiting), false),
        Err(ReviewError::Unauthorized)
    );
    assert_eq!(fiche, before);
    let mut waiting = sheet("s2", FicheState::Waiting);
    assert_eq!(
        waiting.apply_modification(sheet("x", FicheState::Waiting), true),
        Err(ReviewError::Unauthorized)
    );
    assert_eq!(waiting.version.len(), 1);
    let mut accepted = sheet("s3", FicheState::Accepted);
    assert_eq!(
        accepted.apply_modification(sheet("x", FicheState::Waiting), true),
        Err(ReviewError::Unauthorized)
    );
}

#[test]
fn scenarist_cannot_accept() {
    let mut fiche = sheet("s1", FicheState::StaffValidated);
    assert_eq!(
        fiche.apply_review(message(false, FicheState::Accepted), DiscordRole::Scenarist, false),
        Err(ReviewError::Unauthorized)
    );
    assert_eq!(fiche.state, FicheState::StaffValidated);
    assert_eq!(
        fiche.apply_review(message(false, FicheState::Refused), DiscordRole::Scenarist, false),
        Ok(())
    );
    assert_eq!(fiche.state, FicheState::Refused);
}

#[test]
fn owner_without_a_staff_role_can_comment_but_not_decide() {
    let mut fiche = sheet("s1", FicheState::Waiting);
    assert_eq!(
        fiche.apply_review(message(false, FicheState::Accepted), DiscordRole::User, true),
        Err(ReviewError::Unauthorized)
    );
    assert_eq!(
        fiche.apply_review(message(false, FicheState::Refused), DiscordRole::Moderator, true),
        Err(ReviewError::Unauthorized)
    );
    assert_eq!(fiche.apply_review(message(true, FicheState::Comment), DiscordRole::User, true), Ok(()));
    assert_eq!(fiche.state, FicheState::Waiting);
    assert_eq!(fiche.messages.len(), 1);
}

#[test]
fn malformed_messages_are_validation_failures() {
    assert_eq!(
        check_review(DiscordRole::Admin, false, &message(true, FicheState::Accepted)),
        Err(ReviewError::ValidationFailure)
    );
    assert_eq!(
        check_review(DiscordRole::Admin, false, &message(false, FicheState::Waiting)),
        Err(ReviewError::ValidationFailure)
    );
    assert_eq!(
        check_review(DiscordRole::User, true, &message(true, FicheState::Refused)),
        Err(ReviewError::ValidationFailure)
    );
    assert_eq!(
        check_review(DiscordRole::User, false, &message(true, FicheState::Refused)),
        Err(ReviewError::Unauthorized)
    );
}

#[test]
fn a_message_that_names_comment_is_stored_as_a_comment() {
    let mut fiche = sheet("s1", FicheState::Refused);
    assert_eq!(fiche.apply_review(message(false, FicheState::Comment), DiscordRole::User, true), Ok(()));
    assert_eq!(fiche.state, FicheState::Refused);
    assert_eq!(fiche.messages, vec![message(true, FicheState::Comment)]);
}

#[test]
fn who_may_decide_what() {
    let all = [
        FicheState::Waiting,
        FicheState::RequestModification,
        FicheState::StaffValidated,
        FicheState::Accepted,
        FicheState::Refused,
        FicheState::Comment,
    ];
    for target in all {
        assert!(!can_decide(DiscordRole::User, target));
        assert!(!can_decide(DiscordRole::Moderator, target));
    }
    for role in [DiscordRole::PlatformAdmin, DiscordRole::Admin, DiscordRole::LeadScenarist] {
        assert!(!can_decide(role, FicheState::Waiting));
        assert!(!can_decide(role, FicheState::Comment));
        assert!(can_decide(role, FicheState::RequestModification));
        assert!(can_decide(role, FicheState::StaffValidated));
        assert!(can_decide(role, FicheState::Accepted));
        assert!(can_decide(role, FicheState::Refused));
    }
    assert!(can_decide(DiscordRole::Scenarist, FicheState::RequestModification));
    assert!(can_decide(DiscordRole::Scenarist, FicheState::StaffValidated));
    assert!(can_decide(DiscordRole::Scenarist, FicheState::Refused));
    assert!(!can_decide(DiscordRole::Scenarist, FicheState::Accepted));
}

#[test]
fn decision_targets_by_role() {
    assert_eq!(decision_targets(DiscordRole::User), vec![]);
    assert_eq!(decision_targets(DiscordRole::Moderator), vec![]);
    assert_eq!(
        decision_targets(DiscordRole::Scenarist),
        vec![FicheState::RequestModification, FicheState::StaffValidated, FicheState::Refused]
    );
    assert_eq!(
        decision_targets(DiscordRole::LeadScenarist),
        vec![
            FicheState::RequestModification,
            FicheState::StaffValidated,
            FicheState::Accepted,
            FicheState::Refused
        ]
    );
    assert_eq!(
        decision_targets(DiscordRole::Admin),
        decision_targets(DiscordRole::PlatformAdmin)
    );
}

#[test]
fn opened_sheet_has_an_empty_log_and_one_snapshot() {
    let mut submitted = sheet("", FicheState::Refused);
    submitted.messages.push(message(true, FicheState::Comment));
    submitted.version.push(submitted.snapshot());
    let fiche = FicheRP::open(submitted, "id-1".to_string(), FicheState::Waiting);
    assert_eq!(fiche.id, "id-1");
    assert_eq!(fiche.state, FicheState::Waiting);
    assert_eq!(fiche.messages, vec![]);
    assert_eq!(fiche.version, vec![fiche.snapshot()]);
    assert_eq!(fiche.name, "Roger");
    assert_eq!(fiche.submission_date, 10);
}
