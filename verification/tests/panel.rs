use ficherp::fiche_rp::{FicheRP, FicheState, Job, ReviewMessage};
use ficherp::panel::{AdminSpace, FicheSpace, Showing};
use ficherp::permissions::DiscordRole;
use ficherp::space::{badge_image, image_resolver, message_heading, FilterEnum};
use ficherp::user::{FrontAccount, User};

fn account(id: &str) -> FrontAccount {
    FrontAccount {
        discord_user: User {
            id: id.to_string(),
            global_name: format!("name-{}", id),
            avatar: "a".to_string(),
        },
        discord_roles: vec![],
        fiches: vec![],
        creation_date: 1,
        banned: false,
    }
}

fn sheet(job: Job, versions: u64) -> FicheRP {
    let mut fiche = FicheRP::blank();
    fiche.id = "s1".to_string();
    fiche.job = job;
    for date in 0..versions {
        fiche.name = format!("v{}", date);
        fiche.push_version(date);
    }
    fiche
}

#[test]
fn a_new_panel_shows_nothing() {
    let panel = FicheSpace::new(FilterEnum::OWN);
    assert_eq!(panel.showing(), Showing::Empty);
    assert_eq!(panel.fiche_filter, FilterEnum::OWN);
    assert_eq!(panel.selected_fiche_account, None);
    assert_eq!(panel.new_fiche, None);
    assert_eq!(panel.review_message, None);
    assert!(!panel.is_writing_message);
    assert!(!panel.is_previewing_fiche);
    assert!(!panel.is_viewing_fiche_history);
    assert!(!panel.is_editing_existing_fiche);
}

#[test]
fn clicks_move_between_viewer_and_editor() {
    let mut panel = FicheSpace::new(FilterEnum::ALL);
    panel.is_previewing_fiche = true;
    panel.is_editing_existing_fiche = true;
    panel.create_fiche();
    assert_eq!(panel.showing(), Showing::Editor);
    assert_eq!(panel.new_fiche, Some(FicheRP::blank()));
    assert!(!panel.is_previewing_fiche);
    assert!(!panel.is_editing_existing_fiche);

    panel.is_viewing_fiche_history = true;
    panel.background_image = Some("x".to_string());
    panel.select_fiche(account("1"), sheet(Job::Chaos, 1));
    assert_eq!(panel.showing(), Showing::Viewer);
    assert_eq!(panel.new_fiche, None);
    assert_eq!(panel.background_image, None);
    assert_eq!(panel.selected_fiche_account, Some((account("1"), sheet(Job::Chaos, 1))));
    assert!(!panel.is_viewing_fiche_history);

    panel.fiche_submitted("ok.svg".to_string());
    assert_eq!(panel.showing(), Showing::Viewer);
    panel.selected_fiche_account = None;
    assert_eq!(panel.showing(), Showing::Picture);
    panel.create_fiche();
    assert_eq!(panel.showing(), Showing::Editor);
}

#[test]
fn writing_and_posting_a_message() {
    let mut panel = FicheSpace::new(FilterEnum::ALL);
    panel.select_fiche(account("1"), sheet(Job::Chaos, 1));
    panel.start_message("42");
    assert!(panel.is_writing_message);
    assert_eq!(panel.review_message, Some(ReviewMessage::draft("42")));
    panel.settle_message_window();
    assert!(panel.is_writing_message);
    panel.message_posted();
    assert_eq!(panel.review_message, None);
    assert_eq!(panel.selected_fiche_account, None);
    assert!(panel.is_writing_message);
    panel.settle_message_window();
    assert!(!panel.is_writing_message);
}

#[test]
fn the_history_window_picks_the_first_snapshot() {
    let mut panel = FicheSpace::new(FilterEnum::ALL);
    let fiche = sheet(Job::Chaos, 3);
    panel.select_fiche(account("1"), fiche.clone());
    panel.settle_history_window();
    assert_eq!(panel.selected_fiche_version, None);
    panel.is_viewing_fiche_history = true;
    panel.settle_history_window();
    assert_eq!(panel.selected_fiche_version, Some(fiche.version[0].clone()));
    panel.selected_fiche_version = Some(fiche.version[2].clone());
    panel.settle_history_window();
    assert_eq!(panel.selected_fiche_version, Some(fiche.version[2].clone()));

    let mut empty = FicheSpace::new(FilterEnum::ALL);
    empty.select_fiche(account("1"), sheet(Job::Chaos, 0));
    empty.is_viewing_fiche_history = true;
    empty.settle_history_window();
    assert_eq!(empty.selected_fiche_version, None);
    let mut nothing = FicheSpace::new(FilterEnum::ALL);
    nothing.is_viewing_fiche_history = true;
    nothing.settle_history_window();
    assert_eq!(nothing.selected_fiche_version, None);
}

#[test]
fn a_modification_starts_from_the_selected_sheet() {
    let mut panel = FicheSpace::new(FilterEnum::OWN);
    panel.job_text_buffer = "avant".to_string();
    panel.start_modification();
    assert_eq!(panel, {
        let mut same = FicheSpace::new(FilterEnum::OWN);
        same.job_text_buffer = "avant".to_string();
        same
    });
    let mut fiche = sheet(Job::Chaos, 1);
    fiche.state = FicheState::RequestModification;
    panel.select_fiche(account("1"), fiche.clone());
    panel.start_modification();
    assert_eq!(panel.showing(), Showing::Editor);
    assert_eq!(panel.new_fiche, Some(fiche));
    assert_eq!(panel.job_text_buffer, "avant");
    assert!(panel.is_editing_existing_fiche);

    let other = sheet(Job::Other("Technicien".to_string()), 1);
    panel.select_fiche(account("1"), other.clone());
    panel.start_modification();
    assert_eq!(panel.job_text_buffer, "Technicien");
    assert_eq!(panel.new_fiche, Some(other));
}

#[test]
fn the_administration_hands_in_for_the_chosen_member() {
    let mut panel = AdminSpace::new();
    assert_eq!(panel.sheets, FicheSpace::new(FilterEnum::ALL));
    assert_eq!(panel.target_name(), "Choisir un utilisateur");
    assert_eq!(panel.target_id(), None);
    panel.selected_account = Some(account("7"));
    assert_eq!(panel.target_name(), "name-7");
    assert_eq!(panel.target_id(), Some("7".to_string()));
}

#[test]
fn badges_pictures_and_headings() {
    assert_eq!(badge_image(FicheState::Waiting), "waiting.svg");
    assert_eq!(badge_image(FicheState::RequestModification), "modif.svg");
    assert_eq!(badge_image(FicheState::StaffValidated), "conform.svg");
    assert_eq!(badge_image(FicheState::Accepted), "accepted.svg");
    assert_eq!(badge_image(FicheState::Refused), "refused.svg");
    assert_eq!(badge_image(FicheState::Comment), "comment.svg");
    assert_eq!(
        image_resolver("https://example.org/", "badges/modif.svg"),
        "https://example.org/app_img/badges/modif.svg"
    );
    let mut message = ReviewMessage::draft("42");
    assert_eq!(
        message_heading(&message, DiscordRole::LeadScenarist, "Roger"),
        "[Responsable scénariste] \nRoger"
    );
    message.is_private = true;
    assert_eq!(
        message_heading(&message, DiscordRole::User, "Roger"),
        "[PRIVÉE] [Utilisateur] \nRoger"
    );
}
