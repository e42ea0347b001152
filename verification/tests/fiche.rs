use ficherp::fiche_rp::{
    FicheRP, FicheState, FicheVersion, Job, MedicRank, MedicRole, ReviewMessage, ScienceRank,
    ScienceRole, SecurityRank, SecurityRole,
};
use ficherp::text::{same_text, truncate_at_char_boundary};

#[test]
fn fiche_rp() {
    let fiche: FicheRP = FicheRP {
        id: "".to_string(),
        name: "Roger".to_string(),
        job: Job::Science(ScienceRole::Researcher(ScienceRank::Senior)),
        description: "Je suis un grand garçon".to_string(),
        lore: "je suis pas réel".to_string(),
        submission_date: 0,
        messages: vec![],
        version: vec![],
        state: FicheState::Waiting,
    };

    println!("{:?}", fiche)
}

#[test]
fn state_captions() {
    assert_eq!(FicheState::Waiting.get_text(), "EN ATTENTE");
    assert_eq!(FicheState::RequestModification.get_text(), "DEMANDE DE MODIFICATIONS");
    assert_eq!(FicheState::StaffValidated.get_text(), "CONFORME");
    assert_eq!(FicheState::Accepted.get_text(), "ACCEPTÉE");
    assert_eq!(FicheState::Refused.get_text(), "REFUSÉE");
    assert_eq!(FicheState::Comment.get_text(), "COMMENTAIRE");
}

#[test]
fn all_states_in_order_of_declaration() {
    assert_eq!(
        FicheState::all(),
        vec![
            FicheState::Waiting,
            FicheState::RequestModification,
            FicheState::StaffValidated,
            FicheState::Accepted,
            FicheState::Refused,
            FicheState::Comment,
        ]
    );
}

#[test]
fn job_getters_answer_only_for_their_branch() {
    let science = Job::Science(ScienceRole::Researcher(ScienceRank::Senior));
    assert_eq!(science.get_science_role(), Some(&ScienceRole::Researcher(ScienceRank::Senior)));
    assert_eq!(science.get_science_level(), Some(&ScienceRank::Senior));
    assert_eq!(science.get_security_role(), None);
    assert_eq!(science.get_security_level(), None);
    assert_eq!(science.get_medic_role(), None);
    assert_eq!(science.get_medic_level(), None);
    assert_eq!(science.get_other_string(), None);

    let security = Job::Security(SecurityRole::Gunsmith(SecurityRank::Sgt));
    assert_eq!(security.get_security_role(), Some(&SecurityRole::Gunsmith(SecurityRank::Sgt)));
    assert_eq!(security.get_security_level(), Some(&SecurityRank::Sgt));
    assert_eq!(security.get_science_role(), None);

    let surgeon = Job::Medic(MedicRole::Surgeon(MedicRank::Confirmed));
    assert_eq!(surgeon.get_medic_role(), Some(&MedicRole::Surgeon(MedicRank::Confirmed)));
    assert_eq!(surgeon.get_medic_level(), Some(&MedicRank::Confirmed));

    let nurse = Job::Medic(MedicRole::Nurse);
    assert_eq!(nurse.get_medic_role(), Some(&MedicRole::Nurse));
    assert_eq!(nurse.get_medic_level(), None);

    let other = Job::Other("Technicien".to_string());
    assert_eq!(other.get_other_string(), Some(&"Technicien".to_string()));
    assert_eq!(Job::ClassD.get_other_string(), None);
}

#[test]
fn role_levels() {
    assert_eq!(
        ScienceRole::Supervisor(ScienceRank::NoLevel).get_science_level(),
        &ScienceRank::NoLevel
    );
    assert_eq!(SecurityRole::Ntf(SecurityRank::Gen).get_security_level(), &SecurityRank::Gen);
    assert_eq!(
        MedicRole::Psychiatrist(MedicRank::Senior).get_medic_level(),
        Some(&MedicRank::Senior)
    );
    assert_eq!(MedicRole::Director.get_medic_level(), None);
}

#[test]
fn job_names() {
    assert_eq!(
        Job::Science(ScienceRole::Researcher(ScienceRank::Senior)).to_string(),
        "Science (Chercheur Sénior)"
    );
    assert_eq!(
        Job::Security(SecurityRole::SecurityOfficier(SecurityRank::CplC1c)).to_string(),
        "Sécurité (Officier de Sécurité (Caporal-Chef Première Classe))"
    );
    assert_eq!(
        Job::Security(SecurityRole::Ntf(SecurityRank::sdt)).to_string(),
        "Sécurité (Nine-Tailed Fox (Première Classe))"
    );
    assert_eq!(Job::Medic(MedicRole::Nurse).to_string(), "Médecine (Infirmier/Infirmière)");
    assert_eq!(
        Job::Medic(MedicRole::Doctor(MedicRank::Beginner)).to_string(),
        "Médecine (Médecin Junior)"
    );
    assert_eq!(Job::ClassD.to_string(), "Classe-D");
    assert_eq!(Job::SiteDirector.to_string(), "Directeur du Site");
    assert_eq!(Job::Chaos.to_string(), "Chaos");
    assert_eq!(Job::Other("Technicien".to_string()).to_string(), "Autres (Technicien)");
    assert_eq!(ScienceRank::NoLevel.to_string(), "[Aucun Grade]");
    assert_eq!(MedicRank::Confirmed.to_string(), "Confirmé");
    assert_eq!(SecurityRank::LtCol.to_string(), "Lieutenant-Colonel");
    assert_eq!(SecurityRole::TacticalAgent(SecurityRank::Rct).to_string(), "Agent Tactique (Recrue)");
    assert_eq!(MedicRole::DirectorAdj.to_string(), "Directeur Adjoint");
}

#[test]
fn clones_are_equal_to_what_they_copy() {
    let message = ReviewMessage {
        discord_id: "7".to_string(),
        content: "bien".to_string(),
        date: 3,
        is_private: true,
        is_comment: true,
        set_state: FicheState::Comment,
    };
    assert_eq!(message.clone(), message);
    let fiche = FicheRP {
        id: "s1".to_string(),
        name: "Roger".to_string(),
        job: Job::Other("Technicien".to_string()),
        description: "d".to_string(),
        lore: "l".to_string(),
        submission_date: 9,
        messages: vec![message],
        version: vec![],
        state: FicheState::Refused,
    };
    assert_eq!(fiche.clone(), fiche);
}

#[test]
fn push_version_stamps_and_appends_one_snapshot() {
    let mut fiche = FicheRP {
        id: "s1".to_string(),
        name: "Roger".to_string(),
        job: Job::Chaos,
        description: "d".to_string(),
        lore: "l".to_string(),
        submission_date: 0,
        messages: vec![],
        version: vec![],
        state: FicheState::Waiting,
    };
    fiche.push_version(1700000000);
    assert_eq!(fiche.submission_date, 1700000000);
    assert_eq!(
        fiche.version,
        vec![FicheVersion {
            name: "Roger".to_string(),
            job: Job::Chaos,
            description: "d".to_string(),
            lore: "l".to_string(),
            submission_date: 1700000000,
        }]
    );
    assert_eq!(fiche.snapshot(), fiche.version[0]);
    assert_eq!(fiche.state, FicheState::Waiting);
}

#[test]
fn truncation_counts_characters_not_bytes() {
    assert_eq!(truncate_at_char_boundary("Sécurité".to_string(), 3), "Séc");
    assert_eq!(truncate_at_char_boundary("Sécurité".to_string(), 8), "Sécurité");
    assert_eq!(truncate_at_char_boundary("Sécurité".to_string(), 20), "Sécurité");
    assert_eq!(truncate_at_char_boundary("Sécurité".to_string(), 0), "");
    assert_eq!(truncate_at_char_boundary("".to_string(), 5), "");
    assert_eq!(
        truncate_at_char_boundary("Caporal-Chef Première Classe".to_string(), 20),
        "Caporal-Chef Premièr"
    );
}

#[test]
fn same_text_is_equality_of_characters() {
    assert!(same_text("abc", "abc"));
    assert!(same_text("", ""));
    assert!(!same_text("abc", "abd"));
    assert!(!same_text("abc", "ab"));
    assert!(!same_text("é", "e"));
}
