//! Character sheets: what a sheet holds, the posts it can take, the states
//! it moves through, and the review messages and snapshots it collects.

use vstd::prelude::*;

verus! {

/// Where a sheet stands in its review. `Comment` is never the state of a
/// sheet: it only tags a message that asks for no change of state.
#[derive(Clone, Copy, Debug, PartialEq, Eq, Structural)]
pub enum FicheState {
    Waiting,
    RequestModification,
    StaffValidated,
    Accepted,
    Refused,
    Comment,
}

/// The caption under which a state is shown.
pub open spec fn state_text(state: FicheState) -> Seq<char> {
    match state {
        FicheState::Waiting => "EN ATTENTE"@,
        FicheState::RequestModification => "DEMANDE DE MODIFICATIONS"@,
        FicheState::StaffValidated => "CONFORME"@,
        FicheState::Accepted => "ACCEPTÉE"@,
        FicheState::Refused => "REFUSÉE"@,
        FicheState::Comment => "COMMENTAIRE"@,
    }
}

/// Every state, in the order of declaration.
pub open spec fn all_states() -> Seq<FicheState> {
    seq![
        FicheState::Waiting,
        FicheState::RequestModification,
        FicheState::StaffValidated,
        FicheState::Accepted,
        FicheState::Refused,
        FicheState::Comment,
    ]
}

impl FicheState {
    /// The caption under which the state is shown.
    pub fn get_text(&self) -> (text: &'static str)
        ensures
            text@ == state_text(*self),
    {
        match self {
            FicheState::Waiting => "EN ATTENTE",
            FicheState::RequestModification => "DEMANDE DE MODIFICATIONS",
            FicheState::StaffValidated => "CONFORME",
            FicheState::Accepted => "ACCEPTÉE",
            FicheState::Refused => "REFUSÉE",
            FicheState::Comment => "COMMENTAIRE",
        }
    }

    /// Every state, in the order of declaration.
    pub fn all() -> (states: Vec<FicheState>)
        ensures
            states@ == all_states(),
    {
        let mut states: Vec<FicheState> = Vec::new();
        states.push(FicheState::Waiting);
        states.push(FicheState::RequestModification);
        states.push(FicheState::StaffValidated);
        states.push(FicheState::Accepted);
        states.push(FicheState::Refused);
        states.push(FicheState::Comment);
        proof {
            assert(states@ =~= all_states());
        }
        states
    }
}

/// Seniority among the science staff.
#[derive(Clone, Copy, Debug, PartialEq, Eq, Structural)]
pub enum ScienceRank {
    Beginner,
    NoLevel,
    Senior,
}

/// A post among the science staff, with its seniority.
#[derive(Clone, Copy, Debug, PartialEq, Eq, Structural)]
pub enum ScienceRole {
    Scientific(ScienceRank),
    Researcher(ScienceRank),
    Doctor(ScienceRank),
    Supervisor(ScienceRank),
}

/// The seniority that a science post carries.
pub open spec fn science_level_of(role: ScienceRole) -> ScienceRank {
    match role {
        ScienceRole::Scientific(level) => level,
        ScienceRole::Researcher(level) => level,
        ScienceRole::Doctor(level) => level,
        ScienceRole::Supervisor(level) => level,
    }
}

impl ScienceRole {
    /// The seniority that the post carries.
    pub fn get_science_level(&self) -> (level: &ScienceRank)
        ensures
            *level == science_level_of(*self),
    {
        match self {
            ScienceRole::Scientific(level) => level,
            ScienceRole::Researcher(level) => level,
            ScienceRole::Doctor(level) => level,
            ScienceRole::Supervisor(level) => level,
        }
    }
}

/// Military rank among the security staff, from recruit to general.
#[allow(non_camel_case_types)]
#[derive(Clone, Copy, Debug, PartialEq, Eq, Structural)]
pub enum SecurityRank {
    Rct,
    Sdt,
    sdt,
    cpl,
    cplC,
    CplC1c,
    Sgt,
    SgtC,
    Adj,
    AdjC,
    Maj,
    Asp,
    Slt,
    Lt,
    Cpt,
    Cmd,
    LtCol,
    Col,
    Gen,
}

/// A post among the security staff, with its rank.
#[derive(Clone, Copy, Debug, PartialEq, Eq, Structural)]
pub enum SecurityRole {
    SecurityOfficier(SecurityRank),
    Ntf(SecurityRank),
    Gunsmith(SecurityRank),
    TacticalAgent(SecurityRank),
}

/// The rank that a security post carries.
pub open spec fn security_level_of(role: SecurityRole) -> SecurityRank {
    match role {
        SecurityRole::SecurityOfficier(level) => level,
        SecurityRole::Ntf(level) => level,
        SecurityRole::Gunsmith(level) => level,
        SecurityRole::TacticalAgent(level) => level,
    }
}

impl SecurityRole {
    /// The rank that the post carries.
    pub fn get_security_level(&self) -> (level: &SecurityRank)
        ensures
            *level == security_level_of(*self),
    {
        match self {
            SecurityRole::SecurityOfficier(level) => level,
            SecurityRole::TacticalAgent(level) => level,
            SecurityRole::Gunsmith(level) => level,
            SecurityRole::Ntf(level) => level,
        }
    }
}

/// Seniority among the practising medical staff.
#[derive(Clone, Copy, Debug, PartialEq, Eq, Structural)]
pub enum MedicRank {
    Beginner,
    Confirmed,
    Senior,
}

/// A post among the medical staff; only practitioners carry a seniority.
#[derive(Clone, Copy, Debug, PartialEq, Eq, Structural)]
pub enum MedicRole {
    Director,
    DirectorAdj,
    Manager,
    Psychiatrist(MedicRank),
    Surgeon(MedicRank),
    Doctor(MedicRank),
    Nurse,
}

/// The seniority that a medical post carries, if it carries one.
pub open spec fn medic_level_of(role: MedicRole) -> Option<MedicRank> {
    match role {
        MedicRole::Doctor(rank) => Some(rank),
        MedicRole::Psychiatrist(rank) => Some(rank),
        MedicRole::Surgeon(rank) => Some(rank),
        _ => None,
    }
}

impl MedicRole {
    /// The seniority that the post carries, if it carries one.
    pub fn get_medic_level(&self) -> (level: Option<&MedicRank>)
        ensures
            level.is_some() == medic_level_of(*self).is_some(),
            level.is_some() ==> *level.unwrap() == medic_level_of(*self).unwrap(),
    {
        match self {
            MedicRole::Doctor(rank) => Some(rank),
            MedicRole::Psychiatrist(rank) => Some(rank),
            MedicRole::Surgeon(rank) => Some(rank),
            _ => None,
        }
    }
}

/// The post that a character holds.
#[derive(Debug, PartialEq, Eq)]
pub enum Job {
    Security(SecurityRole),
    Science(ScienceRole),
    ClassD,
    Medic(MedicRole),
    SiteDirector,
    Chaos,
    Other(String),
}

/// A post, with free text as plain characters.
pub ghost enum JobView {
    Security(SecurityRole),
    Science(ScienceRole),
    ClassD,
    Medic(MedicRole),
    SiteDirector,
    Chaos,
    Other(Seq<char>),
}

impl View for Job {
    type V = JobView;

    open spec fn view(&self) -> JobView {
        match *self {
            Job::Security(role) => JobView::Security(role),
            Job::Science(role) => JobView::Science(role),
            Job::ClassD => JobView::ClassD,
            Job::Medic(role) => JobView::Medic(role),
            Job::SiteDirector => JobView::SiteDirector,
            Job::Chaos => JobView::Chaos,
            Job::Other(text) => JobView::Other(text@),
        }
    }
}

impl Clone for Job {
    fn clone(&self) -> (copy: Self)
        ensures
            copy == *self,
    {
        match self {
            Job::Security(role) => Job::Security(*role),
            Job::Science(role) => Job::Science(*role),
            Job::ClassD => Job::ClassD,
            Job::Medic(role) => Job::Medic(*role),
            Job::SiteDirector => Job::SiteDirector,
            Job::Chaos => Job::Chaos,
            Job::Other(text) => Job::Other(text.clone()),
        }
    }
}

impl Job {
    /// The science post, for a character of the science staff.
    pub fn get_science_role(&self) -> (role: Option<&ScienceRole>)
        ensures
            role.is_some() == (*self is Science),
            role.is_some() ==> *role.unwrap() == self->Science_0,
    {
        match self {
            Job::Science(role) => Some(role),
            _ => None,
        }
    }

    /// The security post, for a character of the security staff.
    pub fn get_security_role(&self) -> (role: Option<&SecurityRole>)
        ensures
            role.is_some() == (*self is Security),
            role.is_some() ==> *role.unwrap() == self->Security_0,
    {
        match self {
            Job::Security(role) => Some(role),
            _ => None,
        }
    }

    /// The seniority of a character of the science staff.
    pub fn get_science_level(&self) -> (level: Option<&ScienceRank>)
        ensures
            level.is_some() == (*self is Science),
            level.is_some() ==> *level.unwrap() == science_level_of(self->Science_0),
    {
        match self {
            Job::Science(role) => Some(role.get_science_level()),
            _ => None,
        }
    }

    /// The rank of a character of the security staff.
    pub fn get_security_level(&self) -> (level: Option<&SecurityRank>)
        ensures
            level.is_some() == (*self is Security),
            level.is_some() ==> *level.unwrap() == security_level_of(self->Security_0),
    {
        match self {
            Job::Security(role) => Some(role.get_security_level()),
            _ => None,
        }
    }

    /// The medical post, for a character of the medical staff.
    pub fn get_medic_role(&self) -> (role: Option<&MedicRole>)
        ensures
            role.is_some() == (*self is Medic),
            role.is_some() ==> *role.unwrap() == self->Medic_0,
    {
        match self {
            Job::Medic(role) => Some(role),
            _ => None,
        }
    }

    /// The seniority of a character of the medical staff whose post
    /// carries one.
    pub fn get_medic_level(&self) -> (level: Option<&MedicRank>)
        ensures
            level.is_some() == (*self is Medic && medic_level_of(self->Medic_0).is_some()),
            level.is_some() ==> *level.unwrap() == medic_level_of(self->Medic_0).unwrap(),
    {
        match self {
            Job::Medic(role) => role.get_medic_level(),
            _ => None,
        }
    }

    /// The free text of a post that is none of the listed ones.
    pub fn get_other_string(&self) -> (text: Option<&String>)
        ensures
            text.is_some() == (*self is Other),
            text.is_some() ==> *text.unwrap() == self->Other_0,
    {
        match self {
            Job::Other(text) => Some(text),
            _ => None,
        }
    }
}

/// What a sheet said at one submission.
#[derive(Debug, PartialEq)]
pub struct FicheVersion {
    pub name: String,
    pub job: Job,
    pub description: String,
    pub lore: String,
    pub submission_date: u64,
}

/// A snapshot, with text as plain characters.
pub ghost struct VersionView {
    pub name: Seq<char>,
    pub job: JobView,
    pub description: Seq<char>,
    pub lore: Seq<char>,
    pub submission_date: u64,
}

impl View for FicheVersion {
    type V = VersionView;

    open spec fn view(&self) -> VersionView {
        VersionView {
            name: self.name@,
            job: self.job@,
            description: self.description@,
            lore: self.lore@,
            submission_date: self.submission_date,
        }
    }
}

impl Clone for FicheVersion {
    fn clone(&self) -> (copy: Self)
        ensures
            copy == *self,
    {
        FicheVersion {
            name: self.name.clone(),
            job: self.job.clone(),
            description: self.description.clone(),
            lore: self.lore.clone(),
            submission_date: self.submission_date,
        }
    }
}

/// One entry of a sheet's review log.
#[derive(Debug, PartialEq)]
pub struct ReviewMessage {
    pub discord_id: String,
    pub content: String,
    pub date: u64,
    pub is_private: bool,
    pub is_comment: bool,
    pub set_state: FicheState,
}

/// A review message, with text as plain characters.
pub ghost struct MessageView {
    pub discord_id: Seq<char>,
    pub content: Seq<char>,
    pub date: u64,
    pub is_private: bool,
    pub is_comment: bool,
    pub set_state: FicheState,
}

impl View for ReviewMessage {
    type V = MessageView;

    open spec fn view(&self) -> MessageView {
        MessageView {
            discord_id: self.discord_id@,
            content: self.content@,
            date: self.date,
            is_private: self.is_private,
            is_comment: self.is_comment,
            set_state: self.set_state,
        }
    }
}

impl Clone for ReviewMessage {
    fn clone(&self) -> (copy: Self)
        ensures
            copy == *self,
    {
        ReviewMessage {
            discord_id: self.discord_id.clone(),
            content: self.content.clone(),
            date: self.date,
            is_private: self.is_private,
            is_comment: self.is_comment,
            set_state: self.set_state,
        }
    }
}

/// A message is well formed when it is tagged as a comment exactly if it
/// asks for no change of state.
pub open spec fn message_well_formed(message: MessageView) -> bool {
    message.is_comment == (message.set_state == FicheState::Comment)
}

/// The views of the messages of a log, in order.
pub open spec fn message_views(log: Seq<ReviewMessage>) -> Seq<MessageView> {
    Seq::new(log.len(), |i: int| log[i]@)
}

/// The views of the snapshots of a history, in order.
pub open spec fn version_views(history: Seq<FicheVersion>) -> Seq<VersionView> {
    Seq::new(history.len(), |i: int| history[i]@)
}

/// A character sheet under review.
#[derive(Debug, PartialEq)]
pub struct FicheRP {
    pub id: String,
    pub name: String,
    pub job: Job,
    pub description: String,
    pub lore: String,
    pub submission_date: u64,
    pub messages: Vec<ReviewMessage>,
    pub version: Vec<FicheVersion>,
    pub state: FicheState,
}

/// A sheet, with text as plain characters and its logs as sequences.
pub ghost struct FicheView {
    pub id: Seq<char>,
    pub name: Seq<char>,
    pub job: JobView,
    pub description: Seq<char>,
    pub lore: Seq<char>,
    pub submission_date: u64,
    pub messages: Seq<MessageView>,
    pub version: Seq<VersionView>,
    pub state: FicheState,
}

impl View for FicheRP {
    type V = FicheView;

    open spec fn view(&self) -> FicheView {
        FicheView {
            id: self.id@,
            name: self.name@,
            job: self.job@,
            description: self.description@,
            lore: self.lore@,
            submission_date: self.submission_date,
            messages: message_views(self.messages@),
            version: version_views(self.version@),
            state: self.state,
        }
    }
}

/// The snapshot that mirrors what a sheet says now.
pub open spec fn snapshot_of(fiche: FicheView) -> VersionView {
    VersionView {
        name: fiche.name,
        job: fiche.job,
        description: fiche.description,
        lore: fiche.lore,
        submission_date: fiche.submission_date,
    }
}

/// A sheet that was submitted has a history, and the latest snapshot
/// mirrors the name, post, description and lore that the sheet has now.
pub open spec fn history_current(fiche: FicheView) -> bool {
    fiche.version.len() > 0 && fiche.version.last().name == fiche.name
        && fiche.version.last().job == fiche.job && fiche.version.last().description
        == fiche.description && fiche.version.last().lore == fiche.lore
}

/// A sheet is sound when it is in a state that a sheet can be in, every
/// message of its log is well formed, and its history is current.
pub open spec fn sheet_sound(fiche: FicheView) -> bool {
    fiche.state != FicheState::Comment && history_current(fiche) && forall|i: int|
        0 <= i < fiche.messages.len() ==> message_well_formed(#[trigger] fiche.messages[i])
}

/// The sheet after it was stamped with `date` and a snapshot of it was
/// added to its history.
pub open spec fn with_snapshot(fiche: FicheView, date: u64) -> FicheView {
    let stamped = FicheView { submission_date: date, ..fiche };
    FicheView { version: fiche.version.push(snapshot_of(stamped)), ..stamped }
}

impl FicheRP {
    /// The snapshot that mirrors what the sheet says now.
    pub fn snapshot(&self) -> (taken: FicheVersion)
        ensures
            taken@ == snapshot_of(self@),
    {
        FicheVersion {
            name: self.name.clone(),
            job: self.job.clone(),
            description: self.description.clone(),
            lore: self.lore.clone(),
            submission_date: self.submission_date,
        }
    }

    /// Stamps the sheet with `date` and adds a snapshot of it to its
    /// history. Nothing else changes.
    pub fn push_version(&mut self, date: u64)
        ensures
            final(self)@ == with_snapshot(old(self)@, date),
            history_current(final(self)@),
    {
        self.submission_date = date;
        let taken = self.snapshot();
        self.version.push(taken);
        proof {
            assert(version_views(self.version@) =~= version_views(old(self).version@).push(
                taken@,
            ));
        }
    }
}

/// A copy of a review log, message by message.
pub fn clone_messages(log: &Vec<ReviewMessage>) -> (copy: Vec<ReviewMessage>)
    ensures
        copy@ == log@,
{
    let mut copy: Vec<ReviewMessage> = Vec::new();
    let mut i: usize = 0;
    while i < log.len()
        invariant
            i <= log.len(),
            copy@ == log@.take(i as int),
        decreases log.len() - i,
    {
        copy.push(log[i].clone());
        proof {
            assert(copy@ =~= log@.take(i + 1));
        }
        i = i + 1;
    }
    proof {
        assert(log@.take(i as int) =~= log@);
    }
    copy
}

/// A copy of a history, snapshot by snapshot.
pub fn clone_versions(history: &Vec<FicheVersion>) -> (copy: Vec<FicheVersion>)
    ensures
        copy@ == history@,
{
    let mut copy: Vec<FicheVersion> = Vec::new();
    let mut i: usize = 0;
    while i < history.len()
        invariant
            i <= history.len(),
            copy@ == history@.take(i as int),
        decreases history.len() - i,
    {
        copy.push(history[i].clone());
        proof {
            assert(copy@ =~= history@.take(i + 1));
        }
        i = i + 1;
    }
    proof {
        assert(history@.take(i as int) =~= history@);
    }
    copy
}

impl Clone for FicheRP {
    fn clone(&self) -> (copy: Self)
        ensures
            copy@ == self@,
    {
        FicheRP {
            id: self.id.clone(),
            name: self.name.clone(),
            job: self.job.clone(),
            description: self.description.clone(),
            lore: self.lore.clone(),
            submission_date: self.submission_date,
            messages: clone_messages(&self.messages),
            version: clone_versions(&self.version),
            state: self.state,
        }
    }
}

} // verus!
