//! What the screens decide: which space is shown, which sheets a filter
//! lets through, which roles and spaces a member is offered, and how the
//! sheet panel moves between browsing, writing and editing.

use crate::fiche_rp::{
    with_snapshot, FicheRP, FicheState, FicheView, Job, JobView, MessageView, ReviewMessage,
};
use crate::permissions::{known_roles, name_of, staff_role, texts, DiscordRole};
use crate::user::{FrontAccount, User, WebsiteMeta};
use vstd::prelude::*;
use vstd::string::StrSliceExecFns;
use vstd::string::StringExecFns;

verus! {

/// The screens of the application.
#[derive(Clone, Copy, Debug, PartialEq, Eq, Structural)]
pub enum Space {
    Eselection,
    EspaceSelection,
    EadminSpace,
    EficheSpace,
    EscienceSpace,
    EsecuritySpace,
}

/// The screen that is shown.
#[derive(Clone, Copy, Debug, PartialEq, Eq, Structural)]
pub struct SelectedSpace {
    pub selected_space: Space,
}

impl Default for SelectedSpace {
    fn default() -> (selected: Self)
        ensures
            selected.selected_space == Space::Eselection,
    {
        SelectedSpace { selected_space: Space::Eselection }
    }
}

/// What the application knows about the member at the screen.
#[derive(Debug, PartialEq)]
pub struct AuthInfo {
    pub authenticated: bool,
    pub account: Option<FrontAccount>,
    pub website_meta: WebsiteMeta,
}

impl Default for AuthInfo {
    fn default() -> (info: Self)
        ensures
            !info.authenticated,
            info.account.is_none(),
            info.website_meta.whitelist@.len() == 0,
    {
        AuthInfo { authenticated: false, account: None, website_meta: WebsiteMeta::default() }
    }
}

/// The address at which a member signs in, for a server at `api_path`.
pub fn get_oath2_url(api_path: &str) -> (url: String)
    ensures
        url@ == api_path@ + "api/oauth2/auth"@,
{
    api_path.to_owned().concat("api/oauth2/auth")
}

/// The address of the picture of a member.
pub fn avatar_url(user: &User) -> (url: String)
    ensures
        url@ == "https://cdn.discordapp.com/avatars/"@ + user.id@ + "/"@ + user.avatar@
            + ".png?size=128"@,
{
    "https://cdn.discordapp.com/avatars/".to_owned().concat(user.id.as_str()).concat("/").concat(
        user.avatar.as_str(),
    ).concat(".png?size=128")
}

/// The screen on which a member signs in.
#[derive(Debug, PartialEq)]
pub struct AuthPanel {
    location_url: String,
}

impl View for AuthPanel {
    type V = Seq<char>;

    closed spec fn view(&self) -> Seq<char> {
        self.location_url@
    }
}

impl AuthPanel {
    /// The sign-in screen of the application served at `location_url`.
    pub fn new(location_url: String) -> (panel: AuthPanel)
        ensures
            panel@ == location_url@,
    {
        AuthPanel { location_url }
    }

    /// The address of the picture on the sign-in button.
    pub fn button_image(&self) -> (url: String)
        ensures
            url@ == self@ + "discord_steam_link.svg"@,
    {
        self.location_url.clone().concat("discord_steam_link.svg")
    }
}

/// The screen on which a member picks a space.
#[derive(Clone, Copy, Debug, PartialEq, Eq, Structural)]
pub struct SpacePanel {}

/// The spaces that a member acting as `role` is offered: the sheets for
/// everybody, and before them the administration for the staff.
pub open spec fn spaces_for(role: DiscordRole) -> Seq<Space> {
    if staff_role(role) {
        seq![Space::EadminSpace, Space::EficheSpace]
    } else {
        seq![Space::EficheSpace]
    }
}

impl SpacePanel {
    /// The screen on which a member picks a space.
    pub fn new() -> (panel: SpacePanel)
        ensures
            panel == (SpacePanel {  }),
    {
        SpacePanel {  }
    }

    /// The spaces that a member acting as `role` is offered.
    pub fn offered_spaces(&self, role: DiscordRole) -> (spaces: Vec<Space>)
        ensures
            spaces@ == spaces_for(role),
    {
        let mut spaces: Vec<Space> = Vec::new();
        if role.is_staff() {
            spaces.push(Space::EadminSpace);
        }
        spaces.push(Space::EficheSpace);
        proof {
            assert(spaces@ =~= spaces_for(role));
        }
        spaces
    }
}

/// The roles as which a member may choose to look at the application: a
/// plain user, then each role that the member's groups grant, then a
/// platform administrator for a whitelisted member.
pub open spec fn roles_to_choose(ids: Seq<Seq<char>>, whitelisted: bool) -> Seq<DiscordRole> {
    let granted = seq![DiscordRole::User] + known_roles(ids);
    if whitelisted {
        granted.push(DiscordRole::PlatformAdmin)
    } else {
        granted
    }
}

/// The roles as which a member of the groups `role_ids` may choose to look
/// at the application.
pub fn selectable_roles(role_ids: &Vec<String>, whitelisted: bool) -> (roles: Vec<DiscordRole>)
    ensures
        roles@ == roles_to_choose(texts(role_ids@), whitelisted),
{
    let mut roles: Vec<DiscordRole> = Vec::new();
    roles.push(DiscordRole::User);
    match DiscordRole::from_role_ids(role_ids) {
        Some(granted) => {
            let mut i: usize = 0;
            while i < granted.len()
                invariant
                    i <= granted.len(),
                    roles@ == seq![DiscordRole::User] + granted@.take(i as int),
                decreases granted.len() - i,
            {
                roles.push(granted[i]);
                proof {
                    assert(roles@ =~= seq![DiscordRole::User] + granted@.take(i + 1));
                }
                i = i + 1;
            }
            proof {
                assert(granted@.take(i as int) =~= granted@);
            }
        },
        None => {},
    }
    if whitelisted {
        roles.push(DiscordRole::PlatformAdmin);
    }
    roles
}

/// Which sheets the list shows.
#[allow(non_camel_case_types)]
#[derive(Clone, Copy, Debug, PartialEq, Eq, Structural)]
pub enum FilterEnum {
    OWN,
    ALL,
    ACCEPTED_OTHER,
    WAITING,
}

/// The name under which a filter is shown.
pub open spec fn filter_name(filter: FilterEnum) -> Seq<char> {
    match filter {
        FilterEnum::OWN => "Mes Fiches"@,
        FilterEnum::ALL => "Toutes"@,
        FilterEnum::ACCEPTED_OTHER => "Fiches des autres"@,
        FilterEnum::WAITING => "En attente"@,
    }
}

/// Whether `filter` lets through a sheet in `state`; `own` says whether the
/// sheet belongs to the member at the screen.
pub open spec fn filter_shows(filter: FilterEnum, own: bool, state: FicheState) -> bool {
    match filter {
        FilterEnum::OWN => own,
        FilterEnum::ACCEPTED_OTHER => state == FicheState::Accepted,
        FilterEnum::WAITING => state == FicheState::Waiting,
        FilterEnum::ALL => true,
    }
}

/// The filter that is applied to the sheets of an account: the staff, for
/// whom "own" is no choice, get every sheet in its place as soon as one
/// account has a sheet.
pub open spec fn filter_in_force(filter: FilterEnum, staff: bool, has_fiches: bool) -> FilterEnum {
    if has_fiches && staff && filter == FilterEnum::OWN {
        FilterEnum::ALL
    } else {
        filter
    }
}

/// The filters that a member may choose from.
pub open spec fn filters_for(staff: bool) -> Seq<FilterEnum> {
    if staff {
        seq![FilterEnum::ALL, FilterEnum::WAITING, FilterEnum::ACCEPTED_OTHER]
    } else {
        seq![FilterEnum::ACCEPTED_OTHER, FilterEnum::OWN]
    }
}

impl FilterEnum {
    /// The name under which the filter is shown.
    pub fn to_string(&self) -> (name: String)
        ensures
            name@ == filter_name(*self),
    {
        let name: &'static str = match self {
            FilterEnum::OWN => "Mes Fiches",
            FilterEnum::ALL => "Toutes",
            FilterEnum::ACCEPTED_OTHER => "Fiches des autres",
            FilterEnum::WAITING => "En attente",
        };
        name.to_owned()
    }

    /// Whether the filter lets through a sheet in `state`.
    pub fn shows(&self, own: bool, state: FicheState) -> (shown: bool)
        ensures
            shown == filter_shows(*self, own, state),
    {
        match self {
            FilterEnum::OWN => own,
            FilterEnum::ACCEPTED_OTHER => match state {
                FicheState::Accepted => true,
                _ => false,
            },
            FilterEnum::WAITING => match state {
                FicheState::Waiting => true,
                _ => false,
            },
            FilterEnum::ALL => true,
        }
    }

    /// The filter that is applied to the sheets of an account.
    pub fn in_force(&self, staff: bool, has_fiches: bool) -> (filter: FilterEnum)
        ensures
            filter == filter_in_force(*self, staff, has_fiches),
    {
        match self {
            FilterEnum::OWN => {
                if has_fiches && staff {
                    FilterEnum::ALL
                } else {
                    FilterEnum::OWN
                }
            },
            _ => *self,
        }
    }

    /// The filters that a member may choose from.
    pub fn choices(staff: bool) -> (filters: Vec<FilterEnum>)
        ensures
            filters@ == filters_for(staff),
    {
        let mut filters: Vec<FilterEnum> = Vec::new();
        if staff {
            filters.push(FilterEnum::ALL);
            filters.push(FilterEnum::WAITING);
            filters.push(FilterEnum::ACCEPTED_OTHER);
        } else {
            filters.push(FilterEnum::ACCEPTED_OTHER);
            filters.push(FilterEnum::OWN);
        }
        proof {
            assert(filters@ =~= filters_for(staff));
        }
        filters
    }
}

/// A notice to the member, by kind.
#[derive(Debug, PartialEq)]
pub enum NotifType {
    INFO(String),
    WARN(String),
    ERROR(String),
    OK(String),
}

/// The text of a notice.
pub open spec fn notice_text(notice: NotifType) -> Seq<char> {
    match notice {
        NotifType::INFO(text) => text@,
        NotifType::WARN(text) => text@,
        NotifType::ERROR(text) => text@,
        NotifType::OK(text) => text@,
    }
}

impl NotifType {
    /// The text of the notice, whatever its kind.
    pub fn to_string(&self) -> (text: String)
        ensures
            text@ == notice_text(*self),
    {
        match self {
            NotifType::INFO(text) => text.clone(),
            NotifType::WARN(text) => text.clone(),
            NotifType::ERROR(text) => text.clone(),
            NotifType::OK(text) => text.clone(),
        }
    }
}

/// The fewest characters of a name, and of the free text of a post.
pub const MIN_NAME_CHARS: usize = 5;

/// The fewest characters of a description or a lore.
pub const MIN_TEXT_CHARS: usize = 200;

/// The most characters of a description or a lore.
pub const MAX_TEXT_CHARS: usize = 15000;

/// Whether a name, or the free text of a post, is long enough.
pub fn name_long_enough(name: &str) -> (enough: bool)
    ensures
        enough == (name@.len() >= MIN_NAME_CHARS),
{
    name.unicode_len() >= MIN_NAME_CHARS
}

/// Whether a description or a lore is neither too short nor too long.
pub fn text_length_ok(text: &str) -> (fits: bool)
    ensures
        fits == (MIN_TEXT_CHARS <= text@.len() <= MAX_TEXT_CHARS),
{
    let len: usize = text.unicode_len();
    MIN_TEXT_CHARS <= len && len <= MAX_TEXT_CHARS
}

/// The sheet from which the editor starts: nothing written, a class-D
/// post, no log, no history.
pub open spec fn blank_fiche() -> FicheView {
    FicheView {
        id: seq![],
        name: seq![],
        job: JobView::ClassD,
        description: seq![],
        lore: seq![],
        submission_date: 0,
        messages: seq![],
        version: seq![],
        state: FicheState::Waiting,
    }
}

/// The message from which a member starts to write: nothing written, not
/// private, and asking for `Waiting` until the member picks a state.
pub open spec fn blank_message(author: Seq<char>) -> MessageView {
    MessageView {
        discord_id: author,
        content: seq![],
        date: 0,
        is_private: false,
        is_comment: false,
        set_state: FicheState::Waiting,
    }
}

/// The post of a sheet as it is handed in: the free text that the member
/// typed stands in for the text of an unlisted post.
pub open spec fn job_with_text(job: JobView, typed: Seq<char>) -> JobView {
    match job {
        JobView::Other(_) => JobView::Other(typed),
        _ => job,
    }
}

impl FicheRP {
    /// The sheet from which the editor starts.
    pub fn blank() -> (fiche: FicheRP)
        ensures
            fiche@ == blank_fiche(),
    {
        let fiche = FicheRP {
            id: String::new(),
            name: String::new(),
            job: Job::ClassD,
            description: String::new(),
            lore: String::new(),
            submission_date: 0,
            messages: Vec::new(),
            version: Vec::new(),
            state: FicheState::Waiting,
        };
        proof {
            assert(fiche@.messages =~= seq![]);
            assert(fiche@.version =~= seq![]);
        }
        fiche
    }

    /// Makes the sheet ready to be handed in at `now`: the text typed for an
    /// unlisted post becomes the post, the sheet is stamped with `now`, and
    /// a snapshot of it is added to its history.
    pub fn finish_edit(&mut self, job_text_buffer: &str, now: u64)
        ensures
            final(self)@ == with_snapshot(
                FicheView { job: job_with_text(old(self)@.job, job_text_buffer@), ..old(self)@ },
                now,
            ),
    {
        let unlisted: bool = match self.job {
            Job::Other(_) => true,
            _ => false,
        };
        if unlisted {
            self.job = Job::Other(job_text_buffer.to_owned());
        }
        self.push_version(now);
    }

    /// Whether the member at the screen is invited to modify the sheet:
    /// the owner is, while a modification is asked for.
    pub fn invites_modification(&self, is_owner: bool) -> (invited: bool)
        ensures
            invited == (is_owner && self.state == FicheState::RequestModification),
    {
        match self.state {
            FicheState::RequestModification => is_owner,
            _ => false,
        }
    }
}

impl ReviewMessage {
    /// The message from which the member `author` starts to write.
    pub fn draft(author: &str) -> (message: ReviewMessage)
        ensures
            message@ == blank_message(author@),
    {
        ReviewMessage {
            discord_id: author.to_owned(),
            content: String::new(),
            date: 0,
            is_private: false,
            is_comment: false,
            set_state: FicheState::Waiting,
        }
    }
}

/// The file of the badge that stands for a state.
pub open spec fn badge_of(state: FicheState) -> Seq<char> {
    match state {
        FicheState::Waiting => "waiting.svg"@,
        FicheState::RequestModification => "modif.svg"@,
        FicheState::StaffValidated => "conform.svg"@,
        FicheState::Accepted => "accepted.svg"@,
        FicheState::Refused => "refused.svg"@,
        FicheState::Comment => "comment.svg"@,
    }
}

/// The file of the badge that stands for a state.
pub fn badge_image(state: FicheState) -> (file: &'static str)
    ensures
        file@ == badge_of(state),
{
    match state {
        FicheState::Waiting => "waiting.svg",
        FicheState::RequestModification => "modif.svg",
        FicheState::StaffValidated => "conform.svg",
        FicheState::Accepted => "accepted.svg",
        FicheState::Refused => "refused.svg",
        FicheState::Comment => "comment.svg",
    }
}

/// The address of the picture `image_name` of an application served at
/// `location`.
pub fn image_resolver(location: &str, image_name: &str) -> (url: String)
    ensures
        url@ == location@ + "app_img/"@ + image_name@,
{
    location.to_owned().concat("app_img/").concat(image_name)
}

/// The heading of a message in the log: a mark for a private message, the
/// role of the author in brackets, and on a new line the author's name.
pub open spec fn heading_of(is_private: bool, role: Seq<char>, author: Seq<char>) -> Seq<char> {
    if is_private {
        "[PRIVÉE] "@ + "["@ + role + "] "@ + "\n"@ + author
    } else {
        "["@ + role + "] "@ + "\n"@ + author
    }
}

/// The heading of `message` in the log, for an author who acts as `role`
/// and goes by `author_name`.
pub fn message_heading(message: &ReviewMessage, role: DiscordRole, author_name: &str) -> (heading:
    String)
    ensures
        heading@ == heading_of(message.is_private, name_of(role), author_name@),
{
    let mut heading = String::new();
    if message.is_private {
        heading.append("[PRIVÉE] ");
    }
    heading.append("[");
    heading.append(role.to_string().as_str());
    heading.append("] ");
    heading.append("\n");
    heading.append(author_name);
    proof {
        let role_name = name_of(role);
        if message.is_private {
            assert(heading@ =~= heading_of(true, role_name, author_name@));
        } else {
            assert(heading@ =~= heading_of(false, role_name, author_name@));
        }
    }
    heading
}

} // verus!
