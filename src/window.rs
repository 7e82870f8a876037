use vstd::prelude::*;
use vstd::string::*;

use crate::logic::apps::{
    copy_entries, entries_view, filter_by_category, in_category, AppEntry, AppEntryView,
};
use crate::logic::search::{filter_by_name_prefix, lowered_name_starts_with, lowercase_of};

verus! {

/// The session actions offered by the power buttons.
#[derive(Clone, Copy, Debug, PartialEq, Eq, Structural)]
pub enum PowerAction {
    Shutdown,
    Logout,
    Lock,
    Reboot,
    Suspend,
}

impl PowerAction {
    /// The argument of the on-screen confirmation dialog that asks before
    /// the action; none for the actions taken at once.
    pub open spec fn osd_argument_spec(self) -> Option<Seq<char>> {
        match self {
            PowerAction::Logout => Some("log-out"@),
            PowerAction::Reboot => Some("restart"@),
            PowerAction::Shutdown => Some("shutdown"@),
            _ => None,
        }
    }

    pub fn osd_argument(self) -> (r: Option<&'static str>)
        ensures
            r matches Some(a) ==> self.osd_argument_spec() == Some(a@),
            r is None ==> self.osd_argument_spec() is None,
    {
        match self {
            PowerAction::Logout => Some("log-out"),
            PowerAction::Reboot => Some("restart"),
            PowerAction::Shutdown => Some("shutdown"),
            _ => None,
        }
    }
}

/// The kind of popup that the applet button opens.
#[derive(Clone, Copy, Debug, PartialEq, Eq, Structural)]
pub enum PopupType {
    MainMenu,
    ContextMenu,
}

/// What the host is to do after a transition, in order.
#[derive(Debug, PartialEq)]
pub enum Effect {
    /// Open a popup surface with this id.
    OpenPopup(u64),
    /// Destroy the popup surface with this id.
    DestroyPopup(u64),
    /// Ask the session service for the action directly.
    Power(PowerAction),
    /// Start an application from its command line.
    Launch { command: String, app_id: String },
}

/// The applet's state: the open popup, the search text and the listed
/// applications.
pub struct Window {
    pub popup: Option<u64>,
    pub search_field: String,
    pub available_categories: Vec<String>,
    pub available_applications: Vec<AppEntry>,
    pub all_applications: Vec<AppEntry>,
    pub popup_type: PopupType,
}

impl Window {
    /// The state at start: no popup, an empty search and every application
    /// listed.
    pub fn new(all_applications: Vec<AppEntry>, available_categories: Vec<String>) -> (r: Window)
        ensures
            r.popup is None,
            r.search_field@ == Seq::<char>::empty(),
            r.available_categories@ == available_categories@,
            entries_view(r.available_applications@) == entries_view(all_applications@),
            r.all_applications@ == all_applications@,
            r.popup_type == PopupType::MainMenu,
    {
        let available_applications = copy_entries(&all_applications);
        Window {
            popup: None,
            search_field: String::new(),
            available_categories,
            available_applications,
            all_applications,
            popup_type: PopupType::MainMenu,
        }
    }

    /// The button was pressed: a popup of the given kind opens under
    /// `new_id`, or the open one is destroyed.
    pub fn toggle_popup(&mut self, popup_type: PopupType, new_id: u64) -> (r: Vec<Effect>)
        ensures
            final(self).popup_type == popup_type,
            old(self).popup matches Some(p) ==> final(self).popup is None && r@.len() == 1
                && r@[0] == Effect::DestroyPopup(p),
            old(self).popup is None ==> final(self).popup == Some(new_id) && r@.len() == 1
                && r@[0] == Effect::OpenPopup(new_id),
            final(self).search_field == old(self).search_field,
            final(self).available_categories == old(self).available_categories,
            final(self).available_applications == old(self).available_applications,
            final(self).all_applications == old(self).all_applications,
    {
        self.popup_type = popup_type;
        let mut r: Vec<Effect> = Vec::new();
        match self.popup.take() {
            Some(p) => r.push(Effect::DestroyPopup(p)),
            None => {
                self.popup = Some(new_id);
                r.push(Effect::OpenPopup(new_id));
            },
        }
        r
    }

    /// A popup was closed: the search is cleared, every application is
    /// listed again, and the popup is forgotten if it is the open one.
    pub fn popup_closed(&mut self, id: u64)
        ensures
            final(self).search_field@ == Seq::<char>::empty(),
            entries_view(final(self).available_applications@) == entries_view(
                old(self).all_applications@,
            ),
            final(self).popup == (if old(self).popup == Some(id) {
                None
            } else {
                old(self).popup
            }),
            final(self).popup_type == old(self).popup_type,
            final(self).available_categories == old(self).available_categories,
            final(self).all_applications == old(self).all_applications,
    {
        self.search_field = String::new();
        self.available_applications = copy_entries(&self.all_applications);
        if self.popup == Some(id) {
            self.popup = None;
        }
    }

    /// The search text changed: the applications whose names start with it,
    /// case aside, are listed; all of them for an empty text.
    pub fn search_field_input(&mut self, input: String)
        ensures
            final(self).search_field@ == input@,
            input@.len() == 0 ==> entries_view(final(self).available_applications@) == entries_view(
                old(self).all_applications@,
            ),
            input@.len() > 0 ==> entries_view(final(self).available_applications@) == entries_view(
                old(self).all_applications@,
            ).filter(|e: AppEntryView| lowered_name_starts_with(e, lowercase_of(input@))),
            final(self).popup == old(self).popup,
            final(self).popup_type == old(self).popup_type,
            final(self).available_categories == old(self).available_categories,
            final(self).all_applications == old(self).all_applications,
    {
        if input.unicode_len() == 0 {
            self.available_applications = copy_entries(&self.all_applications);
        } else {
            self.available_applications = filter_by_name_prefix(&self.all_applications, input.as_str());
        }
        self.search_field = input;
    }

    /// A power button was pressed. `osd_started` tells whether the
    /// confirmation dialog of the action (if it has one) could be started;
    /// the action is asked of the session service directly when it has none
    /// or when the dialog could not be started.
    pub fn power_option_selected(&self, action: PowerAction, osd_started: bool) -> (r: Vec<Effect>)
        ensures
            (action.osd_argument_spec() is Some && osd_started) ==> r@.len() == 0,
            !(action.osd_argument_spec() is Some && osd_started) ==> r@.len() == 1 && r@[0]
                == Effect::Power(action),
    {
        let mut r: Vec<Effect> = Vec::new();
        if action.osd_argument().is_none() || !osd_started {
            r.push(Effect::Power(action));
        }
        r
    }

    /// An application was chosen: it is started and the popup destroyed.
    pub fn application_selected(&mut self, app: &AppEntry) -> (r: Vec<Effect>)
        requires
            app.command is Some,
        ensures
            r@.len() >= 1,
            r@[0] matches Effect::Launch { command, app_id } && Some(command@) == app@.command
                && app_id@ == app.id@,
            old(self).popup matches Some(p) ==> r@.len() == 2 && r@[1] == Effect::DestroyPopup(p),
            old(self).popup is None ==> r@.len() == 1,
            final(self).popup is None,
            final(self).search_field == old(self).search_field,
            final(self).popup_type == old(self).popup_type,
            final(self).available_categories == old(self).available_categories,
            final(self).available_applications == old(self).available_applications,
            final(self).all_applications == old(self).all_applications,
    {
        let command = match &app.command {
            Some(c) => c.clone(),
            None => String::new(),
        };
        let mut r: Vec<Effect> = Vec::new();
        r.push(Effect::Launch { command, app_id: app.id.clone() });
        if let Some(p) = self.popup.take() {
            r.push(Effect::DestroyPopup(p));
        }
        r
    }

    /// A category was chosen: the search is cleared and the applications of
    /// `loaded` that list the category are shown.
    pub fn category_selected(&mut self, category: &str, loaded: Vec<AppEntry>)
        ensures
            final(self).search_field@ == Seq::<char>::empty(),
            entries_view(final(self).available_applications@) == entries_view(loaded@).filter(
                |e: AppEntryView| in_category(e, category@),
            ),
            final(self).popup == old(self).popup,
            final(self).popup_type == old(self).popup_type,
            final(self).available_categories == old(self).available_categories,
            final(self).all_applications == old(self).all_applications,
    {
        self.search_field = String::new();
        self.available_applications = filter_by_category(&loaded, category);
    }
}

} // verus!
