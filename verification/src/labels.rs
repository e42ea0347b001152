//! The names under which posts, ranks and whole posts are shown.

use crate::fiche_rp::{
    Job, JobView, MedicRank, MedicRole, ScienceRank, ScienceRole, SecurityRank, SecurityRole,
};
use vstd::prelude::*;
use vstd::string::StringExecFns;

verus! {

/// The name of a science seniority.
pub open spec fn science_rank_name(rank: ScienceRank) -> Seq<char> {
    match rank {
        ScienceRank::Beginner => "Junior"@,
        ScienceRank::NoLevel => "[Aucun Grade]"@,
        ScienceRank::Senior => "Sénior"@,
    }
}

/// The name of a science post: the post, a space, the seniority.
pub open spec fn science_role_name(role: ScienceRole) -> Seq<char> {
    match role {
        ScienceRole::Scientific(level) => "Scientifique "@ + science_rank_name(level),
        ScienceRole::Researcher(level) => "Chercheur "@ + science_rank_name(level),
        ScienceRole::Doctor(level) => "Docteur "@ + science_rank_name(level),
        ScienceRole::Supervisor(level) => "Superviseur "@ + science_rank_name(level),
    }
}

/// The name of a security rank.
pub open spec fn security_rank_name(rank: SecurityRank) -> Seq<char> {
    match rank {
        SecurityRank::Rct => "Recrue"@,
        SecurityRank::Sdt => "Soldat"@,
        SecurityRank::sdt => "Première Classe"@,
        SecurityRank::cpl => "Caporal"@,
        SecurityRank::cplC => "Caporal-Chef"@,
        SecurityRank::CplC1c => "Caporal-Chef Première Classe"@,
        SecurityRank::Sgt => "Sergent"@,
        SecurityRank::SgtC => "Sergent-Chef"@,
        SecurityRank::Adj => "Adjudant"@,
        SecurityRank::AdjC => "Adjudant-Chef"@,
        SecurityRank::Maj => "Major"@,
        SecurityRank::Asp => "Aspirant"@,
        SecurityRank::Slt => "Sous-Lieutenant"@,
        SecurityRank::Lt => "Lieutenant"@,
        SecurityRank::Cpt => "Capitaine"@,
        SecurityRank::Cmd => "Commandant"@,
        SecurityRank::LtCol => "Lieutenant-Colonel"@,
        SecurityRank::Col => "Colonel"@,
        SecurityRank::Gen => "Général"@,
    }
}

/// The name of a security post: the post, then the rank in brackets.
pub open spec fn security_role_name(role: SecurityRole) -> Seq<char> {
    match role {
        SecurityRole::SecurityOfficier(level) => "Officier de Sécurité ("@ + security_rank_name(
            level,
        ) + ")"@,
        SecurityRole::Ntf(level) => "Nine-Tailed Fox ("@ + security_rank_name(level) + ")"@,
        SecurityRole::TacticalAgent(level) => "Agent Tactique ("@ + security_rank_name(level)
            + ")"@,
        SecurityRole::Gunsmith(level) => "Armurier ("@ + security_rank_name(level) + ")"@,
    }
}

/// The name of a medical seniority.
pub open spec fn medic_rank_name(rank: MedicRank) -> Seq<char> {
    match rank {
        MedicRank::Beginner => "Junior"@,
        MedicRank::Confirmed => "Confirmé"@,
        MedicRank::Senior => "Sénior"@,
    }
}

/// The name of a medical post, followed by the seniority where the post
/// carries one.
pub open spec fn medic_role_name(role: MedicRole) -> Seq<char> {
    match role {
        MedicRole::Director => "Directeur"@,
        MedicRole::DirectorAdj => "Directeur Adjoint"@,
        MedicRole::Manager => "Responsable"@,
        MedicRole::Doctor(rank) => "Médecin "@ + medic_rank_name(rank),
        MedicRole::Psychiatrist(rank) => "Psychiatre "@ + medic_rank_name(rank),
        MedicRole::Surgeon(rank) => "Chirurgien "@ + medic_rank_name(rank),
        MedicRole::Nurse => "Infirmier/Infirmière"@,
    }
}

/// The name of a post: the branch, then the post within it in brackets.
pub open spec fn job_name(job: JobView) -> Seq<char> {
    match job {
        JobView::Security(role) => "Sécurité ("@ + security_role_name(role) + ")"@,
        JobView::Science(role) => "Science ("@ + science_role_name(role) + ")"@,
        JobView::ClassD => "Classe-D"@,
        JobView::Medic(role) => "Médecine ("@ + medic_role_name(role) + ")"@,
        JobView::SiteDirector => "Directeur du Site"@,
        JobView::Chaos => "Chaos"@,
        JobView::Other(text) => "Autres ("@ + text + ")"@,
    }
}

impl ScienceRank {
    /// The name of the seniority.
    pub fn to_string(&self) -> (name: String)
        ensures
            name@ == science_rank_name(*self),
    {
        let name: &'static str = match self {
            ScienceRank::Beginner => "Junior",
            ScienceRank::NoLevel => "[Aucun Grade]",
            ScienceRank::Senior => "Sénior",
        };
        name.to_owned()
    }
}

impl ScienceRole {
    /// The name of the post with its seniority.
    pub fn to_string(&self) -> (name: String)
        ensures
            name@ == science_role_name(*self),
    {
        let head: &'static str = match self {
            ScienceRole::Scientific(_) => "Scientifique ",
            ScienceRole::Researcher(_) => "Chercheur ",
            ScienceRole::Doctor(_) => "Docteur ",
            ScienceRole::Supervisor(_) => "Superviseur ",
        };
        let level = self.get_science_level().to_string();
        head.to_owned().concat(level.as_str())
    }
}

impl SecurityRank {
    /// The name of the rank.
    pub fn to_string(&self) -> (name: String)
        ensures
            name@ == security_rank_name(*self),
    {
        let name: &'static str = match self {
            SecurityRank::Rct => "Recrue",
            SecurityRank::Sdt => "Soldat",
            SecurityRank::sdt => "Première Classe",
            SecurityRank::cpl => "Caporal",
            SecurityRank::cplC => "Caporal-Chef",
            SecurityRank::CplC1c => "Caporal-Chef Première Classe",
            SecurityRank::Sgt => "Sergent",
            SecurityRank::SgtC => "Sergent-Chef",
            SecurityRank::Adj => "Adjudant",
            SecurityRank::AdjC => "Adjudant-Chef",
            SecurityRank::Maj => "Major",
            SecurityRank::Asp => "Aspirant",
            SecurityRank::Slt => "Sous-Lieutenant",
            SecurityRank::Lt => "Lieutenant",
            SecurityRank::Cpt => "Capitaine",
            SecurityRank::Cmd => "Commandant",
            SecurityRank::LtCol => "Lieutenant-Colonel",
            SecurityRank::Col => "Colonel",
            SecurityRank::Gen => "Général",
        };
        name.to_owned()
    }
}

impl SecurityRole {
    /// The name of the post with its rank.
    pub fn to_string(&self) -> (name: String)
        ensures
            name@ == security_role_name(*self),
    {
        let head: &'static str = match self {
            SecurityRole::SecurityOfficier(_) => "Officier de Sécurité (",
            SecurityRole::Ntf(_) => "Nine-Tailed Fox (",
            SecurityRole::TacticalAgent(_) => "Agent Tactique (",
            SecurityRole::Gunsmith(_) => "Armurier (",
        };
        let level = self.get_security_level().to_string();
        head.to_owned().concat(level.as_str()).concat(")")
    }
}

impl MedicRank {
    /// The name of the seniority.
    pub fn to_string(&self) -> (name: String)
        ensures
            name@ == medic_rank_name(*self),
    {
        let name: &'static str = match self {
            MedicRank::Beginner => "Junior",
            MedicRank::Confirmed => "Confirmé",
            MedicRank::Senior => "Sénior",
        };
        name.to_owned()
    }
}

impl MedicRole {
    /// The name of the post, with its seniority where it carries one.
    pub fn to_string(&self) -> (name: String)
        ensures
            name@ == medic_role_name(*self),
    {
        match self {
            MedicRole::Director => "Directeur".to_owned(),
            MedicRole::DirectorAdj => "Directeur Adjoint".to_owned(),
            MedicRole::Manager => "Responsable".to_owned(),
            MedicRole::Doctor(rank) => "Médecin ".to_owned().concat(rank.to_string().as_str()),
            MedicRole::Psychiatrist(rank) => "Psychiatre ".to_owned().concat(
                rank.to_string().as_str(),
            ),
            MedicRole::Surgeon(rank) => "Chirurgien ".to_owned().concat(
                rank.to_string().as_str(),
            ),
            MedicRole::Nurse => "Infirmier/Infirmière".to_owned(),
        }
    }
}

impl Job {
    /// The name of the post.
    pub fn to_string(&self) -> (name: String)
        ensures
            name@ == job_name(self@),
    {
        match self {
            Job::Security(role) => "Sécurité (".to_owned().concat(
                role.to_string().as_str(),
            ).concat(")"),
            Job::Science(role) => "Science (".to_owned().concat(role.to_string().as_str()).concat(
                ")",
            ),
            Job::ClassD => "Classe-D".to_owned(),
            Job::Medic(role) => "Médecine (".to_owned().concat(role.to_string().as_str()).concat(
                ")",
            ),
            Job::SiteDirector => "Directeur du Site".to_owned(),
            Job::Chaos => "Chaos".to_owned(),
            Job::Other(text) => "Autres (".to_owned().concat(text.as_str()).concat(")"),
        }
    }
}

} // verus!
