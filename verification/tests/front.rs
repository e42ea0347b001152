use ficherp::accounts::{
    is_user_registered, outcome_of_reply, renewal_action, sign_in, update_account_discord,
    update_auth_id, update_token, RenewalAction, StoreReply,
};
use ficherp::fiche_rp::{FicheRP, FicheState, FicheVersion, Job, ReviewMessage};
use ficherp::front::{
    is_auth_valid, retrieve_accounts, retrieve_auth_account, retrieve_whitelist, submit_comment,
    submit_ficherp, submit_ficherp_admin, submit_ficherp_admin_as, submit_ficherp_as,
    submit_ficherp_modif,
};
use ficherp::lookup::{find_by_auth, find_by_user, find_fiche, find_holder};
use ficherp::rate_limit::{RateLimitData, RateLimiter};
use ficherp::review::ReviewError;
use ficherp::user::{Account, GuildMember, Token, User, WebsiteMeta};

const SCENARIST: &str = "1143509784591605841";
const LEAD: &str = "1143632282926727328";

fn sheet(id: &str, state: FicheState) -> FicheRP {
    FicheRP {
        id: id.to_string(),
        name: "Roger".to_string(),
        job: Job::ClassD,
        description: "grand".to_string(),
        lore: "ancien".to_string(),
        submission_date: 10,
        messages: vec![],
        version: vec![FicheVersion {
            name: "Roger".to_string(),
            job: Job::ClassD,
            description: "grand".to_string(),
            lore: "ancien".to_string(),
            submission_date: 10,
        }],
        state,
    }
}

fn token() -> Token {
    Token { access_token: "at".to_string(), refresh_token: "rt".to_string(), expires_in: 604800 }
}

fn account(user_id: &str, auth_id: &str, roles: &[&str], fiches: Vec<FicheRP>) -> Account {
    Account {
        discord_user: User {
            id: user_id.to_string(),
            global_name: format!("name-{}", user_id),
            avatar: "av".to_string(),
        },
        discord_roles: roles.iter().map(|s| s.to_string()).collect(),
        auth_id: auth_id.to_string(),
        token: token(),
        last_renewal: 1000,
        fiches,
        creation_date: 500,
        banned: false,
    }
}

fn message(author: &str, is_private: bool, is_comment: bool, set_state: FicheState) -> ReviewMessage {
    ReviewMessage {
        discord_id: author.to_string(),
        content: "lu".to_string(),
        date: 20,
        is_private,
        is_comment,
        set_state,
    }
}

fn store() -> Vec<Account> {
    vec![
        account("owner", "auth-owner", &[], vec![sheet("s1", FicheState::Waiting)]),
        account("plain", "auth-plain", &["junk"], vec![]),
        account("scena", "auth-scena", &[SCENARIST], vec![]),
        account("lead", "auth-lead", &[SCENARIST, LEAD], vec![]),
        account("listed", "auth-listed", &[], vec![]),
    ]
}

fn meta() -> WebsiteMeta {
    WebsiteMeta { whitelist: vec!["listed".to_string()] }
}

fn some(text: &str) -> Option<String> {
    Some(text.to_string())
}

#[test]
fn lookups_answer_with_the_first_match() {
    let mut accounts = store();
    accounts.push(account("owner", "auth-owner", &[], vec![sheet("s1", FicheState::Refused)]));
    assert_eq!(find_by_auth(&accounts, "auth-owner"), Some(0));
    assert_eq!(find_by_auth(&accounts, "auth-lead"), Some(3));
    assert_eq!(find_by_auth(&accounts, "nobody"), None);
    assert_eq!(find_by_user(&accounts, "owner"), Some(0));
    assert_eq!(find_by_user(&accounts, "listed"), Some(4));
    assert_eq!(find_by_user(&accounts, "auth-owner"), None);
    assert_eq!(find_holder(&accounts, "s1"), Some((0, 0)));
    assert_eq!(find_holder(&accounts, "s2"), None);
    let fiches = vec![
        sheet("a", FicheState::Waiting),
        sheet("b", FicheState::Waiting),
        sheet("b", FicheState::Refused),
    ];
    assert_eq!(find_fiche(&fiches, "b"), Some(1));
    assert_eq!(find_fiche(&fiches, "c"), None);
    assert!(is_auth_valid("auth-plain", &accounts));
    assert!(!is_auth_valid("plain", &accounts));
    assert!(is_user_registered("plain", &accounts));
    assert!(!is_user_registered("auth-plain", &accounts));
}

#[test]
fn lead_decision_through_the_store() {
    let mut accounts = store();
    let mut limiter = RateLimiter::new();
    let decision = message("lead", false, false, FicheState::Accepted);
    let done = submit_comment(
        "auth-lead",
        &some("s1"),
        decision.clone(),
        &mut accounts,
        &meta(),
        &mut limiter,
        100,
    );
    assert_eq!(done, Ok(()));
    assert_eq!(accounts[0].fiches[0].state, FicheState::Accepted);
    assert_eq!(accounts[0].fiches[0].messages, vec![decision]);
    assert_eq!(
        limiter.record("auth-lead"),
        Some(RateLimitData { request_count: 1, first_request_time: 100 })
    );
    let mut expected = store();
    expected[0].fiches[0].state = FicheState::Accepted;
    expected[0].fiches[0].messages.push(message("lead", false, false, FicheState::Accepted));
    assert_eq!(accounts, expected);
}

#[test]
fn plain_user_decision_through_the_store_is_unauthorized() {
    let mut accounts = store();
    let mut limiter = RateLimiter::new();
    let done = submit_comment(
        "auth-plain",
        &some("s1"),
        message("plain", false, false, FicheState::Accepted),
        &mut accounts,
        &meta(),
        &mut limiter,
        100,
    );
    assert_eq!(done, Err(ReviewError::Unauthorized));
    assert_eq!(accounts, store());
    assert_eq!(accounts[0].fiches[0].state, FicheState::Waiting);
    assert_eq!(accounts[0].fiches[0].messages.len(), 0);
}

#[test]
fn whitelisted_member_decides_as_platform_admin() {
    let mut accounts = store();
    let mut limiter = RateLimiter::new();
    let done = submit_comment(
        "auth-listed",
        &some("s1"),
        message("listed", true, false, FicheState::Accepted),
        &mut accounts,
        &meta(),
        &mut limiter,
        100,
    );
    assert_eq!(done, Ok(()));
    assert_eq!(accounts[0].fiches[0].state, FicheState::Accepted);
    let mut again = store();
    let nobody_listed = WebsiteMeta { whitelist: vec![] };
    let refused = submit_comment(
        "auth-listed",
        &some("s1"),
        message("listed", true, false, FicheState::Accepted),
        &mut again,
        &nobody_listed,
        &mut limiter,
        101,
    );
    assert_eq!(refused, Err(ReviewError::Unauthorized));
}

#[test]
fn comment_errors_in_their_order() {
    let mut limiter = RateLimiter::new();
    let mut accounts = store();
    let comment = message("owner", false, true, FicheState::Comment);
    assert_eq!(
        submit_comment("bad", &None, comment.clone(), &mut accounts, &meta(), &mut limiter, 1),
        Err(ReviewError::Unauthorized)
    );
    assert_eq!(limiter.record("bad"), None);
    assert_eq!(
        submit_comment("auth-owner", &None, comment.clone(), &mut accounts, &meta(), &mut limiter, 1),
        Err(ReviewError::ValidationFailure)
    );
    assert_eq!(
        submit_comment(
            "auth-scena",
            &some("nope"),
            comment.clone(),
            &mut accounts,
            &meta(),
            &mut limiter,
            1
        ),
        Err(ReviewError::NotFound)
    );
    assert_eq!(
        submit_comment(
            "auth-plain",
            &some("nope"),
            comment.clone(),
            &mut accounts,
            &meta(),
            &mut limiter,
            1
        ),
        Err(ReviewError::Unauthorized)
    );
    assert_eq!(accounts, store());
}

#[test]
fn the_fourth_post_within_five_minutes_is_rate_limited() {
    let mut accounts = store();
    let mut limiter = RateLimiter::new();
    let comment = message("owner", false, true, FicheState::Comment);
    for now in [1000, 1100, 1299] {
        assert_eq!(
            submit_comment(
                "auth-owner",
                &some("s1"),
                comment.clone(),
                &mut accounts,
                &meta(),
                &mut limiter,
                now
            ),
            Ok(())
        );
    }
    assert_eq!(
        submit_comment(
            "auth-owner",
            &some("s1"),
            comment.clone(),
            &mut accounts,
            &meta(),
            &mut limiter,
            1299
        ),
        Err(ReviewError::RateLimited)
    );
    assert_eq!(accounts[0].fiches[0].messages.len(), 3);
    assert_eq!(
        submit_comment(
            "auth-owner",
            &some("s1"),
            comment.clone(),
            &mut accounts,
            &meta(),
            &mut limiter,
            1300
        ),
        Ok(())
    );
    assert_eq!(accounts[0].fiches[0].messages.len(), 4);
    assert_eq!(
        limiter.record("auth-owner"),
        Some(RateLimitData { request_count: 1, first_request_time: 1300 })
    );
}

#[test]
fn modification_through_the_store() {
    let mut accounts = store();
    let mut limiter = RateLimiter::new();
    let mut submitted = sheet("whatever", FicheState::Accepted);
    submitted.name = "Roger II".to_string();
    submitted.submission_date = 77;

    assert_eq!(
        submit_ficherp_modif(
            "auth-owner",
            &some("s1"),
            submitted.clone(),
            &mut accounts,
            &mut limiter,
            5000
        ),
        Err(ReviewError::Unauthorized)
    );
    assert_eq!(accounts, store());

    let ask = message("scena", false, false, FicheState::RequestModification);
    assert_eq!(
        submit_comment("auth-scena", &some("s1"), ask, &mut accounts, &meta(), &mut limiter, 5000),
        Ok(())
    );
    assert_eq!(accounts[0].fiches[0].state, FicheState::RequestModification);

    assert_eq!(
        submit_ficherp_modif(
            "auth-scena",
            &some("s1"),
            submitted.clone(),
            &mut accounts,
            &mut limiter,
            5001
        ),
        Err(ReviewError::NotFound)
    );
    assert_eq!(
        submit_ficherp_modif("auth-owner", &None, submitted.clone(), &mut accounts, &mut limiter, 5001),
        Err(ReviewError::ValidationFailure)
    );
    assert_eq!(
        submit_ficherp_modif("nobody", &some("s1"), submitted.clone(), &mut accounts, &mut limiter, 5001),
        Err(ReviewError::Unauthorized)
    );
    assert_eq!(
        submit_ficherp_modif(
            "auth-owner",
            &some("s1"),
            submitted.clone(),
            &mut accounts,
            &mut limiter,
            5002
        ),
        Ok(())
    );
    let fiche = &accounts[0].fiches[0];
    assert_eq!(fiche.state, FicheState::Waiting);
    assert_eq!(fiche.name, "Roger II");
    assert_eq!(fiche.id, "s1");
    assert_eq!(fiche.version.len(), 2);
    assert_eq!(fiche.version[1].submission_date, 77);
    assert_eq!(fiche.version[1].name, "Roger II");
    assert_eq!(fiche.messages.len(), 1);
}

#[test]
fn the_sixth_modification_within_an_hour_is_rate_limited() {
    let mut accounts = store();
    let mut limiter = RateLimiter::new();
    for now in [0, 1, 2, 3, 3599] {
        assert_eq!(
            submit_ficherp_modif(
                "auth-owner",
                &some("s1"),
                sheet("x", FicheState::Waiting),
                &mut accounts,
                &mut limiter,
                now
            ),
            Err(ReviewError::Unauthorized)
        );
    }
    assert_eq!(
        submit_ficherp_modif(
            "auth-owner",
            &some("s1"),
            sheet("x", FicheState::Waiting),
            &mut accounts,
            &mut limiter,
            3599
        ),
        Err(ReviewError::RateLimited)
    );
    assert_eq!(
        submit_ficherp_modif(
            "auth-owner",
            &some("s1"),
            sheet("x", FicheState::Waiting),
            &mut accounts,
            &mut limiter,
            3600
        ),
        Err(ReviewError::Unauthorized)
    );
}

#[test]
fn new_sheet_waits_under_the_given_identifier() {
    let mut accounts = store();
    let mut submitted = sheet("client-side", FicheState::Accepted);
    submitted.messages.push(message("plain", false, true, FicheState::Comment));
    assert_eq!(
        submit_ficherp_as("auth-plain", submitted, "id-9".to_string(), &mut accounts),
        Ok(())
    );
    assert_eq!(accounts[1].fiches.len(), 1);
    let fiche = &accounts[1].fiches[0];
    assert_eq!(fiche.id, "id-9");
    assert_eq!(fiche.state, FicheState::Waiting);
    assert_eq!(fiche.messages.len(), 0);
    assert_eq!(fiche.version, vec![fiche.snapshot()]);
    assert_eq!(
        submit_ficherp_as("nobody", sheet("", FicheState::Waiting), "id-10".to_string(), &mut accounts),
        Err(ReviewError::Unauthorized)
    );
    accounts[1].banned = true;
    assert_eq!(
        submit_ficherp_as("auth-plain", sheet("", FicheState::Waiting), "id-11".to_string(), &mut accounts),
        Err(ReviewError::Unauthorized)
    );
    assert_eq!(accounts[1].fiches.len(), 1);
}

#[test]
fn new_sheets_get_fresh_identifiers_of_36_characters() {
    let mut accounts = store();
    assert_eq!(submit_ficherp("auth-plain", sheet("", FicheState::Refused), &mut accounts), Ok(()));
    assert_eq!(submit_ficherp("auth-plain", sheet("", FicheState::Refused), &mut accounts), Ok(()));
    let first = accounts[1].fiches[0].id.clone();
    let second = accounts[1].fiches[1].id.clone();
    assert_eq!(first.chars().count(), 36);
    assert_eq!(second.chars().count(), 36);
    assert_ne!(first, second);
    assert_ne!(first, "");
    assert_eq!(accounts[1].fiches[0].state, FicheState::Waiting);
    assert_eq!(accounts[1].fiches[1].state, FicheState::Waiting);
}

#[test]
fn staff_hand_in_an_accepted_sheet_for_a_member() {
    let mut accounts = store();
    assert_eq!(
        submit_ficherp_admin_as(
            "auth-scena",
            &None,
            &some("plain"),
            sheet("", FicheState::Waiting),
            "id-1".to_string(),
            &mut accounts,
            &meta()
        ),
        Ok(())
    );
    assert_eq!(accounts[1].fiches.len(), 1);
    assert_eq!(accounts[1].fiches[0].state, FicheState::Accepted);
    assert_eq!(accounts[1].fiches[0].id, "id-1");
    assert_eq!(accounts[2].fiches.len(), 0);

    assert_eq!(
        submit_ficherp_admin_as(
            "auth-plain",
            &None,
            &some("plain"),
            sheet("", FicheState::Waiting),
            "id-2".to_string(),
            &mut accounts,
            &meta()
        ),
        Err(ReviewError::Unauthorized)
    );
    assert_eq!(
        submit_ficherp_admin_as(
            "auth-plain",
            &some("s1"),
            &some("plain"),
            sheet("", FicheState::Waiting),
            "id-2".to_string(),
            &mut accounts,
            &meta()
        ),
        Err(ReviewError::Unauthorized)
    );
    assert_eq!(
        submit_ficherp_admin_as(
            "auth-owner",
            &some("s1"),
            &some("plain"),
            sheet("", FicheState::Waiting),
            "id-3".to_string(),
            &mut accounts,
            &meta()
        ),
        Ok(())
    );
    assert_eq!(accounts[1].fiches.len(), 2);
    assert_eq!(
        submit_ficherp_admin_as(
            "auth-lead",
            &None,
            &None,
            sheet("", FicheState::Waiting),
            "id-4".to_string(),
            &mut accounts,
            &meta()
        ),
        Err(ReviewError::ValidationFailure)
    );
    assert_eq!(
        submit_ficherp_admin_as(
            "auth-lead",
            &None,
            &some("ghost"),
            sheet("", FicheState::Waiting),
            "id-4".to_string(),
            &mut accounts,
            &meta()
        ),
        Err(ReviewError::NotFound)
    );
    assert_eq!(
        submit_ficherp_admin(
            "auth-listed",
            &None,
            &some("owner"),
            sheet("", FicheState::Waiting),
            &mut accounts,
            &meta()
        ),
        Ok(())
    );
    assert_eq!(accounts[0].fiches.len(), 2);
    assert_eq!(accounts[0].fiches[1].state, FicheState::Accepted);
    assert_eq!(accounts[0].fiches[1].id.chars().count(), 36);
}

#[test]
fn private_messages_reach_the_owner_and_the_staff_only() {
    let mut accounts = store();
    let mut limiter = RateLimiter::new();
    let private = message("scena", true, true, FicheState::Comment);
    let public = message("scena", false, true, FicheState::Comment);
    for posted in [public.clone(), private.clone(), public.clone()] {
        assert_eq!(
            submit_comment("auth-scena", &some("s1"), posted, &mut accounts, &meta(), &mut limiter, 0),
            Ok(())
        );
    }
    let for_plain = retrieve_accounts("auth-plain", &accounts, &meta()).unwrap();
    assert_eq!(for_plain.len(), 5);
    assert_eq!(for_plain[0].fiches[0].messages, vec![public.clone(), public.clone()]);
    assert_eq!(for_plain[0].discord_user, accounts[0].discord_user);
    assert_eq!(for_plain[0].fiches[0].version, accounts[0].fiches[0].version);

    let whole = vec![public.clone(), private.clone(), public.clone()];
    let for_owner = retrieve_accounts("auth-owner", &accounts, &meta()).unwrap();
    assert_eq!(for_owner[0].fiches[0].messages, whole);
    let for_staff = retrieve_accounts("auth-scena", &accounts, &meta()).unwrap();
    assert_eq!(for_staff[0].fiches[0].messages, whole);
    let for_listed = retrieve_accounts("auth-listed", &accounts, &meta()).unwrap();
    assert_eq!(for_listed[0].fiches[0].messages, whole);
    assert_eq!(
        retrieve_accounts("nobody", &accounts, &meta()),
        Err(ReviewError::Unauthorized)
    );
}

#[test]
fn own_account_and_whitelist_need_a_valid_credential() {
    let accounts = store();
    let own = retrieve_auth_account("auth-lead", &accounts).unwrap();
    assert_eq!(own, accounts[3].to_front());
    assert_eq!(own.discord_user.id, "lead");
    assert_eq!(own.discord_roles, vec![SCENARIST.to_string(), LEAD.to_string()]);
    assert_eq!(retrieve_auth_account("lead", &accounts), Err(ReviewError::Unauthorized));
    assert_eq!(retrieve_whitelist("auth-lead", &accounts, &meta()), Ok(meta()));
    assert_eq!(
        retrieve_whitelist("lead", &accounts, &meta()),
        Err(ReviewError::Unauthorized)
    );
    assert!(meta().is_whitelisted("listed"));
    assert!(!meta().is_whitelisted("lead"));
    assert!(!WebsiteMeta::default().is_whitelisted("listed"));
}

#[test]
fn sweep_actions_by_seconds_left() {
    assert_eq!(renewal_action(1000, 500, 1500), RenewalAction::Reissue);
    assert_eq!(renewal_action(1000, 500, 9999), RenewalAction::Reissue);
    assert_eq!(renewal_action(1000, 500, 1499), RenewalAction::Renew);
    assert_eq!(renewal_action(1000, 604800, 1000 + 604800 - 86400), RenewalAction::Renew);
    assert_eq!(renewal_action(1000, 604800, 1000 + 604800 - 86401), RenewalAction::Refresh);
    assert_eq!(renewal_action(1000, 604800, 0), RenewalAction::Refresh);
    assert_eq!(renewal_action(u64::MAX, u64::MAX, u64::MAX), RenewalAction::Refresh);
    assert_eq!(renewal_action(u64::MAX, 1, u64::MAX), RenewalAction::Renew);
    assert_eq!(store()[0].renewal_action(1000 + 604800), RenewalAction::Reissue);
}

#[test]
fn credentials_tokens_and_profiles_are_replaced_in_place() {
    let mut accounts = store();
    assert!(update_auth_id("plain", "fresh".to_string(), &mut accounts));
    assert_eq!(accounts[1].auth_id, "fresh");
    assert!(!update_auth_id("ghost", "fresh".to_string(), &mut accounts));
    let renewed =
        Token { access_token: "a2".to_string(), refresh_token: "r2".to_string(), expires_in: 7 };
    assert!(update_token("plain", renewed, 2000, &mut accounts));
    assert_eq!(accounts[1].token.access_token, "a2");
    assert_eq!(accounts[1].token.expires_in, 7);
    assert_eq!(accounts[1].last_renewal, 2000);
    assert!(!update_token("ghost", token(), 2000, &mut accounts));
    let user =
        User { id: "plain".to_string(), global_name: "Plain".to_string(), avatar: "new".to_string() };
    assert_eq!(
        update_account_discord(
            "fresh",
            user.clone(),
            Some(GuildMember { roles: vec![LEAD.to_string()] }),
            &mut accounts
        ),
        Ok(())
    );
    assert_eq!(accounts[1].discord_user, user);
    assert_eq!(accounts[1].discord_roles, vec![LEAD.to_string()]);
    assert_eq!(update_account_discord("fresh", user.clone(), None, &mut accounts), Ok(()));
    assert_eq!(accounts[1].discord_roles, Vec::<String>::new());
    assert_eq!(
        update_account_discord("auth-plain", user, None, &mut accounts),
        Err(ReviewError::NotFound)
    );
    let mut expected = store();
    expected[1].auth_id = "fresh".to_string();
    expected[1].token =
        Token { access_token: "a2".to_string(), refresh_token: "r2".to_string(), expires_in: 7 };
    expected[1].last_renewal = 2000;
    expected[1].discord_user.global_name = "Plain".to_string();
    expected[1].discord_user.avatar = "new".to_string();
    expected[1].discord_roles = vec![];
    assert_eq!(accounts, expected);
}

#[test]
fn first_sign_in_makes_an_account_and_later_ones_keep_it() {
    let mut accounts = store();
    let user =
        User { id: "new".to_string(), global_name: "New".to_string(), avatar: "a".to_string() };
    assert!(sign_in(
        user.clone(),
        Some(GuildMember { roles: vec![SCENARIST.to_string()] }),
        "auth-new".to_string(),
        token(),
        3000,
        &mut accounts
    ));
    assert_eq!(accounts.len(), 6);
    assert_eq!(
        accounts[5],
        Account {
            discord_user: user.clone(),
            discord_roles: vec![SCENARIST.to_string()],
            auth_id: "auth-new".to_string(),
            token: token(),
            last_renewal: 3000,
            fiches: vec![],
            creation_date: 3000,
            banned: false,
        }
    );
    let later =
        Token { access_token: "a3".to_string(), refresh_token: "r3".to_string(), expires_in: 9 };
    assert!(!sign_in(user, None, "auth-newer".to_string(), later, 4000, &mut accounts));
    assert_eq!(accounts.len(), 6);
    assert_eq!(accounts[5].auth_id, "auth-newer");
    assert_eq!(accounts[5].token.access_token, "a3");
    assert_eq!(accounts[5].last_renewal, 4000);
    assert_eq!(accounts[5].creation_date, 3000);
    assert_eq!(accounts[5].discord_roles, vec![SCENARIST.to_string()]);
}

#[test]
fn store_replies_become_outcomes() {
    assert_eq!(outcome_of_reply(StoreReply::Matched(1)), Ok(()));
    assert_eq!(outcome_of_reply(StoreReply::Matched(7)), Ok(()));
    assert_eq!(outcome_of_reply(StoreReply::Matched(0)), Err(ReviewError::NotFound));
    assert_eq!(outcome_of_reply(StoreReply::Failed), Err(ReviewError::UpstreamFailure));
}
