//! The sheet panel: what is selected, what is being written, and how a
//! click moves the panel from one to the other.
//!
//! The panel shows at most one thing in its middle: the selected sheet, or
//! else a picture, or else the editor. The windows for the preview, the
//! history and the message are open or closed beside that.

use crate::fiche_rp::{
    FicheRP, FicheState, FicheVersion, FicheView, Job, JobView, MessageView, ReviewMessage,
    VersionView,
};
use crate::front::text_of;
use crate::space::{blank_fiche, blank_message, FilterEnum};
use crate::user::{FrontAccount, FrontAccountView};
use vstd::prelude::*;

verus! {

/// The state of the sheet panel.
#[derive(Debug, PartialEq)]
pub struct FicheSpace {
    pub selected_fiche_account: Option<(FrontAccount, FicheRP)>,
    pub selected_fiche_version: Option<FicheVersion>,
    pub new_fiche: Option<FicheRP>,
    pub review_message: Option<ReviewMessage>,
    pub job_text_buffer: String,
    pub is_previewing_fiche: bool,
    pub is_writing_message: bool,
    pub is_viewing_fiche_history: bool,
    pub is_editing_existing_fiche: bool,
    pub background_image: Option<String>,
    pub fiche_filter: FilterEnum,
}

/// The state of the sheet panel, as plain values.
pub ghost struct PanelView {
    pub selected: Option<(FrontAccountView, FicheView)>,
    pub version: Option<VersionView>,
    pub new_fiche: Option<FicheView>,
    pub message: Option<MessageView>,
    pub job_text: Seq<char>,
    pub previewing: bool,
    pub writing: bool,
    pub viewing_history: bool,
    pub editing_existing: bool,
    pub background: Option<Seq<char>>,
    pub filter: FilterEnum,
}

impl View for FicheSpace {
    type V = PanelView;

    open spec fn view(&self) -> PanelView {
        PanelView {
            selected: match self.selected_fiche_account {
                Some(pair) => Some((pair.0@, pair.1@)),
                None => None,
            },
            version: match self.selected_fiche_version {
                Some(version) => Some(version@),
                None => None,
            },
            new_fiche: match self.new_fiche {
                Some(fiche) => Some(fiche@),
                None => None,
            },
            message: match self.review_message {
                Some(message) => Some(message@),
                None => None,
            },
            job_text: self.job_text_buffer@,
            previewing: self.is_previewing_fiche,
            writing: self.is_writing_message,
            viewing_history: self.is_viewing_fiche_history,
            editing_existing: self.is_editing_existing_fiche,
            background: match self.background_image {
                Some(image) => Some(image@),
                None => None,
            },
            filter: self.fiche_filter,
        }
    }
}

/// What the middle of the panel shows.
#[derive(Clone, Copy, Debug, PartialEq, Eq, Structural)]
pub enum Showing {
    /// The selected sheet.
    Viewer,
    /// The picture that follows a sheet handed in.
    Picture,
    /// The editor.
    Editor,
    /// Nothing.
    Empty,
}

/// What the middle of a panel shows: a selected sheet goes before the
/// picture, and the picture before the editor.
pub open spec fn shown_by(panel: PanelView) -> Showing {
    if panel.selected.is_some() {
        Showing::Viewer
    } else if panel.background.is_some() {
        Showing::Picture
    } else if panel.new_fiche.is_some() {
        Showing::Editor
    } else {
        Showing::Empty
    }
}

/// The panel with the three windows closed.
pub open spec fn windows_closed(panel: PanelView) -> PanelView {
    PanelView { viewing_history: false, writing: false, previewing: false, ..panel }
}

/// The panel after a click on "new sheet": nothing is selected, the editor
/// holds a blank sheet, and every window is closed.
pub open spec fn after_create(panel: PanelView) -> PanelView {
    PanelView {
        selected: None,
        new_fiche: Some(blank_fiche()),
        editing_existing: false,
        background: None,
        ..windows_closed(panel)
    }
}

/// The panel after a click on a sheet of the list: the sheet is selected,
/// the editor is empty, no snapshot is picked, every window is closed.
pub open spec fn after_select(
    panel: PanelView,
    account: FrontAccountView,
    fiche: FicheView,
) -> PanelView {
    PanelView {
        selected: Some((account, fiche)),
        new_fiche: None,
        version: None,
        background: None,
        ..windows_closed(panel)
    }
}

/// The panel after a click on "write a message" by the member `author`.
pub open spec fn after_start_message(panel: PanelView, author: Seq<char>) -> PanelView {
    PanelView { message: Some(blank_message(author)), writing: true, ..panel }
}

/// The panel once the message window has been drawn: a window with no
/// message to write is closed.
pub open spec fn after_message_window(panel: PanelView) -> PanelView {
    if panel.writing && panel.message.is_none() {
        PanelView { writing: false, ..panel }
    } else {
        panel
    }
}

/// The panel after the message was posted: the message is gone, and so is
/// the selection.
pub open spec fn after_message_posted(panel: PanelView) -> PanelView {
    PanelView { message: None, selected: None, ..panel }
}

/// The panel once the history window has been drawn: where a sheet with a
/// history is selected and no snapshot is picked, the first is picked.
pub open spec fn after_history_window(panel: PanelView) -> PanelView {
    if panel.viewing_history && panel.version.is_none() && panel.selected.is_some()
        && panel.selected.unwrap().1.version.len() > 0 {
        PanelView { version: Some(panel.selected.unwrap().1.version[0]), ..panel }
    } else {
        panel
    }
}

/// The panel after the owner took the invitation to modify the selected
/// sheet: the sheet moves from the selection into the editor, and the text
/// of an unlisted post into the text field.
pub open spec fn after_start_modification(panel: PanelView) -> PanelView {
    match panel.selected {
        Some((_, fiche)) => PanelView {
            new_fiche: Some(fiche),
            job_text: match fiche.job {
                JobView::Other(text) => text,
                _ => panel.job_text,
            },
            selected: None,
            editing_existing: true,
            ..panel
        },
        None => panel,
    }
}

/// The panel after the sheet in the editor was handed in: the picture
/// `image` is up, and every window is closed.
pub open spec fn after_submit(panel: PanelView, image: Seq<char>) -> PanelView {
    PanelView { background: Some(image), ..windows_closed(panel) }
}

/// The panel with nothing selected, nothing written and every window
/// closed.
pub open spec fn idle_panel(filter: FilterEnum) -> PanelView {
    PanelView {
        selected: None,
        version: None,
        new_fiche: None,
        message: None,
        job_text: seq![],
        previewing: false,
        writing: false,
        viewing_history: false,
        editing_existing: false,
        background: None,
        filter: filter,
    }
}

impl FicheSpace {
    /// The panel as it is when the application starts: nothing selected,
    /// nothing written, every window closed, the filter on `fiche_filter`.
    pub fn new(fiche_filter: FilterEnum) -> (panel: FicheSpace)
        ensures
            panel@ == idle_panel(fiche_filter),
    {
        FicheSpace {
            selected_fiche_account: None,
            selected_fiche_version: None,
            new_fiche: None,
            review_message: None,
            job_text_buffer: String::new(),
            is_previewing_fiche: false,
            is_writing_message: false,
            is_viewing_fiche_history: false,
            is_editing_existing_fiche: false,
            background_image: None,
            fiche_filter,
        }
    }

    /// What the middle of the panel shows.
    pub fn showing(&self) -> (shown: Showing)
        ensures
            shown == shown_by(self@),
    {
        if self.selected_fiche_account.is_some() {
            Showing::Viewer
        } else if self.background_image.is_some() {
            Showing::Picture
        } else if self.new_fiche.is_some() {
            Showing::Editor
        } else {
            Showing::Empty
        }
    }

    /// A click on "new sheet".
    pub fn create_fiche(&mut self)
        ensures
            final(self)@ == after_create(old(self)@),
    {
        self.selected_fiche_account = None;
        self.new_fiche = Some(FicheRP::blank());
        self.is_viewing_fiche_history = false;
        self.is_writing_message = false;
        self.is_previewing_fiche = false;
        self.is_editing_existing_fiche = false;
        self.background_image = None;
    }

    /// A click on the sheet `fiche` of `account` in the list.
    pub fn select_fiche(&mut self, account: FrontAccount, fiche: FicheRP)
        ensures
            final(self)@ == after_select(old(self)@, account@, fiche@),
    {
        self.new_fiche = None;
        self.selected_fiche_account = Some((account, fiche));
        self.selected_fiche_version = None;
        self.is_viewing_fiche_history = false;
        self.is_writing_message = false;
        self.is_previewing_fiche = false;
        self.background_image = None;
    }

    /// A click on "write a message" by the member `author`.
    pub fn start_message(&mut self, author: &str)
        ensures
            final(self)@ == after_start_message(old(self)@, author@),
    {
        self.review_message = Some(ReviewMessage::draft(author));
        self.is_writing_message = true;
    }

    /// Closes the message window where there is no message to write.
    pub fn settle_message_window(&mut self)
        ensures
            final(self)@ == after_message_window(old(self)@),
    {
        if self.is_writing_message && self.review_message.is_none() {
            self.is_writing_message = false;
        }
    }

    /// The message was posted.
    pub fn message_posted(&mut self)
        ensures
            final(self)@ == after_message_posted(old(self)@),
    {
        self.review_message = None;
        self.selected_fiche_account = None;
    }

    /// Picks the first snapshot of the selected sheet where the history
    /// window is open and no snapshot is picked.
    pub fn settle_history_window(&mut self)
        ensures
            final(self)@ == after_history_window(old(self)@),
    {
        if self.is_viewing_fiche_history && self.selected_fiche_version.is_none() {
            let first: Option<FicheVersion> = match &self.selected_fiche_account {
                Some(pair) => {
                    if pair.1.version.len() > 0 {
                        Some(pair.1.version[0].clone())
                    } else {
                        None
                    }
                },
                None => None,
            };
            if first.is_some() {
                self.selected_fiche_version = first;
            }
        }
    }

    /// The owner took the invitation to modify the selected sheet. Without
    /// a selection nothing happens.
    pub fn start_modification(&mut self)
        ensures
            final(self)@ == after_start_modification(old(self)@),
    {
        let selected = self.selected_fiche_account.take();
        match selected {
            Some(pair) => {
                let fiche: FicheRP = pair.1;
                match &fiche.job {
                    Job::Other(text) => {
                        self.job_text_buffer = text.clone();
                    },
                    _ => {},
                }
                self.new_fiche = Some(fiche);
                self.is_editing_existing_fiche = true;
            },
            None => {},
        }
    }

    /// The sheet in the editor was handed in; `image` is the picture that
    /// says so.
    pub fn fiche_submitted(&mut self, image: String)
        ensures
            final(self)@ == after_submit(old(self)@, image@),
    {
        self.background_image = Some(image);
        self.is_viewing_fiche_history = false;
        self.is_writing_message = false;
        self.is_previewing_fiche = false;
    }
}

/// The state of the administration panel: a sheet panel, and the member
/// on whose behalf a new sheet is handed in.
#[derive(Debug, PartialEq)]
pub struct AdminSpace {
    pub sheets: FicheSpace,
    pub selected_account: Option<FrontAccount>,
}

/// The caption of the choice of a member: the name of the chosen member,
/// or an invitation to choose one.
pub open spec fn target_caption(selected: Option<FrontAccount>) -> Seq<char> {
    match selected {
        Some(account) => account.discord_user.global_name@,
        None => "Choisir un utilisateur"@,
    }
}

/// The identifier of the chosen member, if one is chosen.
pub open spec fn target_of(selected: Option<FrontAccount>) -> Option<Seq<char>> {
    match selected {
        Some(account) => Some(account.discord_user.id@),
        None => None,
    }
}

impl AdminSpace {
    /// The panel as it is when the application starts: every sheet in the
    /// list, no member chosen.
    pub fn new() -> (panel: AdminSpace)
        ensures
            panel.sheets@ == idle_panel(FilterEnum::ALL),
            panel.selected_account.is_none(),
    {
        AdminSpace { sheets: FicheSpace::new(FilterEnum::ALL), selected_account: None }
    }

    /// The caption of the choice of a member.
    pub fn target_name(&self) -> (caption: String)
        ensures
            caption@ == target_caption(self.selected_account),
    {
        match &self.selected_account {
            Some(account) => account.discord_user.global_name.clone(),
            None => "Choisir un utilisateur".to_owned(),
        }
    }

    /// The member on whose behalf a new sheet is handed in, if one is
    /// chosen.
    pub fn target_id(&self) -> (id: Option<String>)
        ensures
            text_of(id) == target_of(self.selected_account),
    {
        match &self.selected_account {
            Some(account) => Some(account.discord_user.id.clone()),
            None => None,
        }
    }
}

/// After a click on a sheet the panel shows that sheet, and after a click
/// on "new sheet" it shows the editor, whatever it showed before.
pub proof fn law_clicks_decide_what_is_shown(
    panel: PanelView,
    account: FrontAccountView,
    fiche: FicheView,
)
    ensures
        shown_by(after_select(panel, account, fiche)) == Showing::Viewer,
        shown_by(after_create(panel)) == Showing::Editor,
        shown_by(after_create(after_select(panel, account, fiche))) == Showing::Editor,
        after_create(panel).new_fiche == Some(blank_fiche()),
        after_create(panel).new_fiche.unwrap().state == FicheState::Waiting,
{
}

} // verus!
