use vstd::prelude::*;
use vstd::string::*;

use crate::logic::apps::{
    entries_view, filter_by_category, in_category, AppEntry, AppEntryView,
    ApplicationCategory, User,
};
use crate::logic::search::{filter_by_fuzzy_name, fuzzy_matches};

verus! {

/// System utilities that the context menu starts.
#[derive(Clone, Copy, Debug, PartialEq, Eq, Structural)]
pub enum SystemTool {
    SystemSettings,
    SystemMonitor,
    DiskManagement,
}

impl SystemTool {
    pub open spec fn program_spec(self) -> Seq<char> {
        match self {
            SystemTool::SystemSettings => "cosmic-settings"@,
            SystemTool::SystemMonitor => "gnome-system-monitor"@,
            SystemTool::DiskManagement => "gnome-disks"@,
        }
    }

    pub open spec fn title_spec(self) -> Seq<char> {
        match self {
            SystemTool::SystemSettings => "COSMIC Settings"@,
            SystemTool::SystemMonitor => "GNOME System Monitor"@,
            SystemTool::DiskManagement => "GNOME Disks"@,
        }
    }

    /// The program that is run for the tool.
    pub fn program(self) -> (r: &'static str)
        ensures
            r@ == self.program_spec(),
    {
        match self {
            SystemTool::SystemSettings => "cosmic-settings",
            SystemTool::SystemMonitor => "gnome-system-monitor",
            SystemTool::DiskManagement => "gnome-disks",
        }
    }

    /// The name under which the tool is reported.
    pub fn title(self) -> (r: &'static str)
        ensures
            r@ == self.title_spec(),
    {
        match self {
            SystemTool::SystemSettings => "COSMIC Settings",
            SystemTool::SystemMonitor => "GNOME System Monitor",
            SystemTool::DiskManagement => "GNOME Disks",
        }
    }
}

/// The session actions offered by the power buttons.
#[derive(Clone, Copy, Debug, PartialEq, Eq, Structural)]
pub enum PowerAction {
    Shutdown,
    Logout,
    Lock,
    Reboot,
    Suspend,
}

impl PowerAction {
    /// The argument of the on-screen confirmation dialog that asks before
    /// the action; none for the actions taken at once.
    pub open spec fn osd_argument_spec(self) -> Option<Seq<char>> {
        match self {
            PowerAction::Logout => Some("log-out"@),
            PowerAction::Reboot => Some("restart"@),
            PowerAction::Shutdown => Some("shutdown"@),
            _ => None,
        }
    }

    pub fn osd_argument(self) -> (r: Option<&'static str>)
        ensures
            r matches Some(a) ==> self.osd_argument_spec() == Some(a@),
            r is None ==> self.osd_argument_spec() is None,
    {
        match self {
            PowerAction::Logout => Some("log-out"),
            PowerAction::Reboot => Some("restart"),
            PowerAction::Shutdown => Some("shutdown"),
            _ => None,
        }
    }
}

/// The kind of popup that the applet button opens.
#[derive(Clone, Copy, Debug, PartialEq, Eq, Structural)]
pub enum PopupType {
    MainMenu,
    ContextMenu,
}

impl Default for PopupType {
    fn default() -> (r: PopupType)
        ensures
            r == PopupType::MainMenu,
    {
        PopupType::MainMenu
    }
}

/// How often an application was started from the menu.
#[derive(Clone, Debug, PartialEq)]
pub struct RecentApplication {
    pub app_id: String,
    pub launch_count: u32,
}

/// The identifiers and launch counts of a list of records, in order.
pub open spec fn recent_view(s: Seq<RecentApplication>) -> Seq<(Seq<char>, u32)> {
    s.map_values(|r: RecentApplication| (r.app_id@, r.launch_count))
}

/// A count raised by one, unless it is already the largest.
pub open spec fn bumped(n: u32) -> u32 {
    if n < u32::MAX {
        (n + 1) as u32
    } else {
        n
    }
}

/// `after` records one more launch of `id` than `before`: the first record
/// for `id` counts one more (short of the largest count), or, without one,
/// a record with a count of one is appended.
pub open spec fn recorded_launch(
    before: Seq<(Seq<char>, u32)>,
    after: Seq<(Seq<char>, u32)>,
    id: Seq<char>,
) -> bool {
    if exists|k: int| 0 <= k < before.len() && before[k].0 == id {
        forall|k: int|
            #![trigger before[k]]
            0 <= k < before.len() && before[k].0 == id && (forall|j: int|
                0 <= j < k ==> before[j].0 != id) ==> after == before.update(
                k,
                (id, bumped(before[k].1)),
            )
    } else {
        after == before.push((id, 1u32))
    }
}

/// The index of the first record for `app_id`.
pub fn first_record(recent: &Vec<RecentApplication>, app_id: &String) -> (r: Option<usize>)
    ensures
        r matches Some(k) ==> k < recent@.len() && recent@[k as int].app_id@ == app_id@ && forall|
            j: int,
        | 0 <= j < k ==> recent@[j].app_id@ != app_id@,
        r is None ==> forall|j: int| 0 <= j < recent@.len() ==> recent@[j].app_id@ != app_id@,
{
    let mut k: usize = 0;
    while k < recent.len()
        invariant
            k <= recent@.len(),
            forall|j: int| 0 <= j < k ==> recent@[j].app_id@ != app_id@,
        decreases recent@.len() - k,
    {
        if recent[k].app_id == *app_id {
            return Some(k);
        }
        k += 1;
    }
    None
}

/// The last entry of `apps` with identifier `id`.
pub open spec fn entry_with_id(apps: Seq<AppEntryView>, id: Seq<char>) -> Option<AppEntryView>
    decreases apps.len(),
{
    if apps.len() == 0 {
        None
    } else if apps.last().id == id {
        Some(apps.last())
    } else {
        entry_with_id(apps.drop_last(), id)
    }
}

/// The index of the last entry of `apps` with identifier `id`.
pub fn find_entry(apps: &Vec<AppEntry>, id: &String) -> (r: Option<usize>)
    ensures
        r matches Some(i) ==> i < apps@.len() && entry_with_id(entries_view(apps@), id@) == Some(
            apps@[i as int]@,
        ),
        r is None ==> entry_with_id(entries_view(apps@), id@) is None,
{
    let ghost v = entries_view(apps@);
    let mut i: usize = apps.len();
    assert(v.subrange(0, i as int) =~= v);
    while i > 0
        invariant
            i <= apps@.len(),
            v == entries_view(apps@),
            entry_with_id(v, id@) == entry_with_id(v.subrange(0, i as int), id@),
        decreases i,
    {
        assert(v.subrange(0, i as int).drop_last() =~= v.subrange(0, i - 1));
        if apps[i - 1].id == *id {
            return Some(i - 1);
        }
        i -= 1;
    }
    None
}

/// The entries of `apps` for the recorded identifiers, in the order of the
/// records; a record whose application is gone is passed over.
pub open spec fn recent_entries(recent: Seq<RecentApplication>, apps: Seq<AppEntryView>) -> Seq<
    AppEntryView,
> {
    recent.map_values(|r: RecentApplication| r.app_id@).filter_map(
        |id: Seq<char>| entry_with_id(apps, id),
    )
}

/// How the applet button presents itself, as configured.
#[derive(Clone, Copy, Debug, PartialEq, Eq, Structural)]
pub enum AppletButtonStyle {
    IconOnly,
    LabelOnly,
    IconAndLabel,
    Auto,
}

/// The kind of panel that hosts the applet.
#[derive(Clone, Copy, Debug, PartialEq, Eq, Structural)]
pub enum PanelType {
    Panel,
    Dock,
    Other,
}

/// The named sizes of a panel.
#[derive(Clone, Copy, Debug, PartialEq, Eq, Structural)]
pub enum PanelSize {
    XS,
    S,
    M,
    L,
    XL,
    Custom(u32),
}

/// The size the host gives the applet: fixed in pixels (width, height) or
/// one of the panel sizes.
#[derive(Clone, Copy, Debug, PartialEq, Eq, Structural)]
pub enum AppletSize {
    Hardcoded(u16, u16),
    PanelSize(PanelSize),
}

/// What the applet button shows.
#[derive(Clone, Copy, Debug, PartialEq, Eq, Structural)]
pub enum ButtonLayout {
    IconOnly,
    LabelOnly,
    IconAndLabel,
}

/// In automatic style the button shows its label on a panel that is too
/// small for the icon: narrower than the icon of a medium panel, or sized
/// extra small or small.
pub open spec fn label_fits_better(panel_type: PanelType, size: AppletSize, medium_icon_size: u16) -> bool {
    panel_type == PanelType::Panel && match size {
        AppletSize::Hardcoded(w, _) => w < medium_icon_size,
        AppletSize::PanelSize(p) => p == PanelSize::XS || p == PanelSize::S,
    }
}

/// What the button shows for a style on a given panel; `medium_icon_size`
/// is the icon size of a medium panel.
pub fn button_layout(
    style: AppletButtonStyle,
    panel_type: PanelType,
    size: AppletSize,
    medium_icon_size: u16,
) -> (r: ButtonLayout)
    ensures
        style == AppletButtonStyle::IconOnly ==> r == ButtonLayout::IconOnly,
        style == AppletButtonStyle::LabelOnly ==> r == ButtonLayout::LabelOnly,
        style == AppletButtonStyle::IconAndLabel ==> r == ButtonLayout::IconAndLabel,
        style == AppletButtonStyle::Auto ==> r == (if label_fits_better(
            panel_type,
            size,
            medium_icon_size,
        ) {
            ButtonLayout::LabelOnly
        } else {
            ButtonLayout::IconOnly
        }),
{
    match style {
        AppletButtonStyle::IconOnly => ButtonLayout::IconOnly,
        AppletButtonStyle::LabelOnly => ButtonLayout::LabelOnly,
        AppletButtonStyle::IconAndLabel => ButtonLayout::IconAndLabel,
        AppletButtonStyle::Auto => match panel_type {
            PanelType::Panel => match size {
                AppletSize::Hardcoded(w, _) => {
                    if w < medium_icon_size {
                        ButtonLayout::LabelOnly
                    } else {
                        ButtonLayout::IconOnly
                    }
                },
                AppletSize::PanelSize(p) => match p {
                    PanelSize::XS | PanelSize::S => ButtonLayout::LabelOnly,
                    _ => ButtonLayout::IconOnly,
                },
            },
            PanelType::Dock | PanelType::Other => ButtonLayout::IconOnly,
        },
    }
}

/// A change in the directories that hold desktop entries.
#[derive(Clone, Copy, Debug, PartialEq, Eq, Structural)]
pub enum Event {
    Ready,
    Changed,
}

/// What the host is to do after a transition, in order.
#[derive(Debug, PartialEq)]
pub enum Effect {
    /// Open a popup surface with this id.
    OpenPopup(u64),
    /// Destroy the popup surface with this id.
    DestroyPopup(u64),
    /// Ask the session service for the action directly.
    Power(PowerAction),
    /// Start an application from its command line.
    Launch { command: String, app_id: String, is_terminal: bool },
    /// Start a system utility.
    RunTool(SystemTool),
    /// Write the launch records to the configuration.
    StoreRecentApplications,
    /// Forget the remembered list of applications.
    ResetApplicationCache,
}

/// The applet's state.
pub struct CosmicClassicMenu {
    /// The open popup, if any.
    pub popup: Option<u64>,
    /// How the applet button presents itself.
    pub button_style: AppletButtonStyle,
    /// The launch records, kept in the configuration.
    pub recent_applications: Vec<RecentApplication>,
    /// The text that filters the applications.
    pub search_field: String,
    /// The applications the menu lists.
    pub available_applications: Vec<AppEntry>,
    /// The kind of popup to show.
    pub popup_type: PopupType,
    /// The category whose applications are listed; none while searching.
    pub selected_category: Option<ApplicationCategory>,
    /// The logged-in user, once known.
    pub current_user: Option<User>,
}

impl CosmicClassicMenu {
    /// The state at start: no popup, an empty search, every application of
    /// `loaded` listed under the category of all applications.
    pub fn new(
        button_style: AppletButtonStyle,
        recent_applications: Vec<RecentApplication>,
        loaded: Vec<AppEntry>,
    ) -> (r: CosmicClassicMenu)
        ensures
            r.popup is None,
            r.button_style == button_style,
            r.recent_applications@ == recent_applications@,
            r.search_field@ == Seq::<char>::empty(),
            r.available_applications@ == loaded@,
            r.popup_type == PopupType::MainMenu,
            r.selected_category == Some(ApplicationCategory::All),
            r.current_user is None,
    {
        CosmicClassicMenu {
            popup: None,
            button_style,
            recent_applications,
            search_field: String::new(),
            available_applications: loaded,
            popup_type: PopupType::MainMenu,
            selected_category: Some(ApplicationCategory::All),
            current_user: None,
        }
    }

    /// The button was pressed: a popup of the given kind opens under
    /// `new_id`, or the open one is destroyed. Opening the main menu lists
    /// the freshly `loaded` applications.
    pub fn toggle_popup(&mut self, popup_type: PopupType, new_id: u64, loaded: Vec<AppEntry>) -> (r:
        Vec<Effect>)
        ensures
            final(self).popup_type == popup_type,
            popup_type == PopupType::MainMenu ==> final(self).available_applications@ == loaded@,
            popup_type != PopupType::MainMenu ==> final(self).available_applications
                == old(self).available_applications,
            old(self).popup matches Some(p) ==> final(self).popup is None && r@.len() == 1
                && r@[0] == Effect::DestroyPopup(p),
            old(self).popup is None ==> final(self).popup == Some(new_id) && r@.len() == 1
                && r@[0] == Effect::OpenPopup(new_id),
            final(self).button_style == old(self).button_style,
            final(self).recent_applications == old(self).recent_applications,
            final(self).search_field == old(self).search_field,
            final(self).selected_category == old(self).selected_category,
            final(self).current_user == old(self).current_user,
    {
        self.popup_type = popup_type;
        if popup_type == PopupType::MainMenu {
            self.available_applications = loaded;
        }
        let mut r: Vec<Effect> = Vec::new();
        match self.popup.take() {
            Some(p) => r.push(Effect::DestroyPopup(p)),
            None => {
                self.popup = Some(new_id);
                r.push(Effect::OpenPopup(new_id));
            },
        }
        r
    }

    /// A popup was closed: the search is cleared, the category of all
    /// applications selected, the list emptied, and the popup forgotten if
    /// it is the open one.
    pub fn close_popup(&mut self, id: u64)
        ensures
            final(self).search_field@ == Seq::<char>::empty(),
            final(self).selected_category == Some(ApplicationCategory::All),
            final(self).available_applications@.len() == 0,
            final(self).popup == (if old(self).popup == Some(id) {
                None
            } else {
                old(self).popup
            }),
            final(self).button_style == old(self).button_style,
            final(self).recent_applications == old(self).recent_applications,
            final(self).popup_type == old(self).popup_type,
            final(self).current_user == old(self).current_user,
    {
        self.search_field = String::new();
        self.selected_category = Some(ApplicationCategory::All);
        self.available_applications = Vec::new();
        if self.popup == Some(id) {
            self.popup = None;
        }
    }

    /// The search text changed. An empty text lists every application of
    /// `loaded` under the category of all applications; another lists those
    /// whose names match it fuzzily, under no category.
    pub fn update_search_field(&mut self, input: String, loaded: Vec<AppEntry>)
        ensures
            final(self).search_field@ == input@,
            input@.len() == 0 ==> final(self).available_applications@ == loaded@
                && final(self).selected_category == Some(ApplicationCategory::All),
            input@.len() > 0 ==> entries_view(final(self).available_applications@) == entries_view(
                loaded@,
            ).filter(|e: AppEntryView| fuzzy_matches(e.name, input@))
                && final(self).selected_category is None,
            final(self).popup == old(self).popup,
            final(self).button_style == old(self).button_style,
            final(self).recent_applications == old(self).recent_applications,
            final(self).popup_type == old(self).popup_type,
            final(self).current_user == old(self).current_user,
    {
        if input.unicode_len() == 0 {
            self.available_applications = loaded;
            self.selected_category = Some(ApplicationCategory::All);
        } else {
            self.available_applications = filter_by_fuzzy_name(&loaded, input.as_str());
            self.selected_category = None;
        }
        self.search_field = input;
    }

    /// A power button was pressed. `osd_started` tells whether the
    /// confirmation dialog of the action (if it has one) could be started.
    /// When it was, the popup is destroyed; when the action has no dialog or
    /// the dialog could not be started, the action is asked of the session
    /// service directly and the popup stays.
    pub fn perform_power_action(&mut self, action: PowerAction, osd_started: bool) -> (r: Vec<
        Effect,
    >)
        ensures
            (action.osd_argument_spec() is Some && osd_started) ==> final(self).popup is None && (
            match old(self).popup {
                Some(p) => r@.len() == 1 && r@[0] == Effect::DestroyPopup(p),
                None => r@.len() == 0,
            }),
            !(action.osd_argument_spec() is Some && osd_started) ==> r@.len() == 1 && r@[0]
                == Effect::Power(action) && final(self).popup == old(self).popup,
            final(self).button_style == old(self).button_style,
            final(self).recent_applications == old(self).recent_applications,
            final(self).search_field == old(self).search_field,
            final(self).available_applications == old(self).available_applications,
            final(self).popup_type == old(self).popup_type,
            final(self).selected_category == old(self).selected_category,
            final(self).current_user == old(self).current_user,
    {
        let mut r: Vec<Effect> = Vec::new();
        if action.osd_argument().is_none() || !osd_started {
            r.push(Effect::Power(action));
            return r;
        }
        if let Some(p) = self.popup.take() {
            r.push(Effect::DestroyPopup(p));
        }
        r
    }

    /// An application was chosen: it is started, its launch is recorded and
    /// stored, and the popup destroyed.
    pub fn launch_application(&mut self, app: &AppEntry) -> (r: Vec<Effect>)
        requires
            app.command is Some,
        ensures
            r@.len() >= 2,
            r@[0] matches Effect::Launch { command, app_id, is_terminal } && Some(command@)
                == app@.command && app_id@ == app.id@ && is_terminal == app.is_terminal,
            r@[1] == Effect::StoreRecentApplications,
            old(self).popup matches Some(p) ==> r@.len() == 3 && r@[2] == Effect::DestroyPopup(p),
            old(self).popup is None ==> r@.len() == 2,
            final(self).popup is None,
            recorded_launch(
                recent_view(old(self).recent_applications@),
                recent_view(final(self).recent_applications@),
                app.id@,
            ),
            final(self).button_style == old(self).button_style,
            final(self).search_field == old(self).search_field,
            final(self).available_applications == old(self).available_applications,
            final(self).popup_type == old(self).popup_type,
            final(self).selected_category == old(self).selected_category,
            final(self).current_user == old(self).current_user,
    {
        let command = match &app.command {
            Some(c) => c.clone(),
            None => String::new(),
        };
        let mut r: Vec<Effect> = Vec::new();
        r.push(
            Effect::Launch { command, app_id: app.id.clone(), is_terminal: app.is_terminal },
        );
        self.update_recent_applications(&app.id);
        r.push(Effect::StoreRecentApplications);
        if let Some(p) = self.popup.take() {
            r.push(Effect::DestroyPopup(p));
        }
        r
    }

    /// Records one more launch of `app_id`: the first record for it counts
    /// one more, short of the largest count; without one, a record with a
    /// count of one is appended.
    pub fn update_recent_applications(&mut self, app_id: &String)
        ensures
            recorded_launch(
                recent_view(old(self).recent_applications@),
                recent_view(final(self).recent_applications@),
                app_id@,
            ),
            final(self).popup == old(self).popup,
            final(self).button_style == old(self).button_style,
            final(self).search_field == old(self).search_field,
            final(self).available_applications == old(self).available_applications,
            final(self).popup_type == old(self).popup_type,
            final(self).selected_category == old(self).selected_category,
            final(self).current_user == old(self).current_user,
    {
        let ghost before = recent_view(self.recent_applications@);
        match first_record(&self.recent_applications, app_id) {
            Some(k) => {
                let count = self.recent_applications[k].launch_count;
                let new_count = if count < u32::MAX {
                    count + 1
                } else {
                    count
                };
                let record = RecentApplication { app_id: app_id.clone(), launch_count: new_count };
                self.recent_applications.set(k, record);
                assert(recent_view(self.recent_applications@) =~= before.update(
                    k as int,
                    (app_id@, bumped(before[k as int].1)),
                ));
            },
            None => {
                self.recent_applications.push(
                    RecentApplication { app_id: app_id.clone(), launch_count: 1 },
                );
                assert(recent_view(self.recent_applications@) =~= before.push((app_id@, 1u32)));
            },
        }
    }

    /// A category was chosen: the search is cleared and the category
    /// selected. All applications of `loaded` are listed for the category
    /// of all applications, the recorded ones for the recently used, and
    /// otherwise those whose desktop entry lists the category's name.
    pub fn select_category(&mut self, category: ApplicationCategory, loaded: Vec<AppEntry>)
        ensures
            final(self).search_field@ == Seq::<char>::empty(),
            final(self).selected_category == Some(category),
            category == ApplicationCategory::All ==> final(self).available_applications@ == loaded@,
            category == ApplicationCategory::RecentlyUsed ==> entries_view(
                final(self).available_applications@,
            ) == recent_entries(old(self).recent_applications@, entries_view(loaded@)),
            category != ApplicationCategory::All && category != ApplicationCategory::RecentlyUsed
                ==> entries_view(final(self).available_applications@) == entries_view(
                loaded@,
            ).filter(|e: AppEntryView| in_category(e, category.mime_name())),
            final(self).popup == old(self).popup,
            final(self).button_style == old(self).button_style,
            final(self).recent_applications == old(self).recent_applications,
            final(self).popup_type == old(self).popup_type,
            final(self).current_user == old(self).current_user,
    {
        self.search_field = String::new();
        self.selected_category = Some(category);
        if category == ApplicationCategory::All {
            self.available_applications = loaded;
        } else if category == ApplicationCategory::RecentlyUsed {
            self.available_applications = self.get_recent_applications(&loaded);
        } else {
            self.available_applications = filter_by_category(&loaded, category.get_mime_name());
        }
    }

    /// The applications of `loaded` that were launched from the menu, in the
    /// order of the records.
    pub fn get_recent_applications(&self, loaded: &Vec<AppEntry>) -> (r: Vec<AppEntry>)
        ensures
            entries_view(r@) == recent_entries(self.recent_applications@, entries_view(loaded@)),
    {
        let ghost ids = self.recent_applications@.map_values(|a: RecentApplication| a.app_id@);
        let ghost f = |id: Seq<char>| entry_with_id(entries_view(loaded@), id);
        let mut r: Vec<AppEntry> = Vec::new();
        let mut i: usize = 0;
        while i < self.recent_applications.len()
            invariant
                i <= self.recent_applications@.len(),
                ids == self.recent_applications@.map_values(|a: RecentApplication| a.app_id@),
                f == (|id: Seq<char>| entry_with_id(entries_view(loaded@), id)),
                entries_view(r@) == ids.take(i as int).filter_map(f),
            decreases self.recent_applications@.len() - i,
        {
            let ghost old_r = r@;
            proof {
                ids.lemma_filter_map_take_succ(f, i as int);
            }
            match find_entry(loaded, &self.recent_applications[i].app_id) {
                Some(k) => {
                    let e = loaded[k].clone();
                    r.push(e);
                    assert(entries_view(r@) =~= entries_view(old_r) + seq![e@]);
                },
                None => {},
            }
            i += 1;
        }
        assert(ids.take(ids.len() as int) =~= ids);
        r
    }

    /// A system utility was chosen: it is started and the popup destroyed.
    pub fn launch_tool(&mut self, tool: SystemTool) -> (r: Vec<Effect>)
        ensures
            r@.len() >= 1,
            r@[0] == Effect::RunTool(tool),
            old(self).popup matches Some(p) ==> r@.len() == 2 && r@[1] == Effect::DestroyPopup(p),
            old(self).popup is None ==> r@.len() == 1,
            final(self).popup is None,
            final(self).button_style == old(self).button_style,
            final(self).recent_applications == old(self).recent_applications,
            final(self).search_field == old(self).search_field,
            final(self).available_applications == old(self).available_applications,
            final(self).popup_type == old(self).popup_type,
            final(self).selected_category == old(self).selected_category,
            final(self).current_user == old(self).current_user,
    {
        let mut r: Vec<Effect> = Vec::new();
        r.push(Effect::RunTool(tool));
        if let Some(p) = self.popup.take() {
            r.push(Effect::DestroyPopup(p));
        }
        r
    }

    /// A change of the desktop entries makes the remembered list stale.
    pub fn handle_event(&mut self, event: Event) -> (r: Vec<Effect>)
        ensures
            event == Event::Changed ==> r@.len() == 1 && r@[0] == Effect::ResetApplicationCache,
            event != Event::Changed ==> r@.len() == 0,
            *final(self) == *old(self),
    {
        let mut r: Vec<Effect> = Vec::new();
        if event == Event::Changed {
            r.push(Effect::ResetApplicationCache);
        }
        r
    }

    /// The account query finished; a failed one leaves no user.
    pub fn update_logged_user(&mut self, user: Option<User>)
        ensures
            final(self).current_user == user,
            final(self).popup == old(self).popup,
            final(self).button_style == old(self).button_style,
            final(self).recent_applications == old(self).recent_applications,
            final(self).search_field == old(self).search_field,
            final(self).available_applications == old(self).available_applications,
            final(self).popup_type == old(self).popup_type,
            final(self).selected_category == old(self).selected_category,
    {
        self.current_user = user;
    }
}

} // verus!
