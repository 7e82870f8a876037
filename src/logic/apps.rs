use vstd::prelude::*;
use vstd::string::*;

verus! {

/// The account record of the logged-in user.
#[derive(Clone, Debug, PartialEq)]
pub struct User {
    pub username: String,
    pub user_realname: String,
    pub profile_picture: String,
    pub uid: u64,
    pub user_home: String,
    pub user_shell: String,
}

/// The groups under which the menu lists applications.
#[derive(Clone, Copy, Debug, PartialEq, Eq, Structural)]
pub enum ApplicationCategory {
    All,
    RecentlyUsed,
    Audio,
    Video,
    Development,
    Games,
    Graphics,
    Network,
    Office,
    Science,
    Settings,
    System,
    Utility,
}

impl ApplicationCategory {
    /// The label shown for the category.
    pub open spec fn display_name(self) -> Seq<char> {
        match self {
            ApplicationCategory::All => "All Applications"@,
            ApplicationCategory::RecentlyUsed => "Recently Used"@,
            ApplicationCategory::Audio => "Audio"@,
            ApplicationCategory::Video => "Video"@,
            ApplicationCategory::Development => "Development"@,
            ApplicationCategory::Games => "Games"@,
            ApplicationCategory::Graphics => "Graphics"@,
            ApplicationCategory::Network => "Network"@,
            ApplicationCategory::Office => "Office"@,
            ApplicationCategory::Science => "Science"@,
            ApplicationCategory::Settings => "Settings"@,
            ApplicationCategory::System => "System"@,
            ApplicationCategory::Utility => "Utilities"@,
        }
    }

    /// The symbolic icon shown beside the category.
    pub open spec fn icon_name(self) -> Seq<char> {
        match self {
            ApplicationCategory::All => "open-menu-symbolic"@,
            ApplicationCategory::RecentlyUsed => "document-open-recent-symbolic"@,
            ApplicationCategory::Audio => "applications-audio-symbolic"@,
            ApplicationCategory::Video => "applications-video-symbolic"@,
            ApplicationCategory::Development => "applications-engineering-symbolic"@,
            ApplicationCategory::Games => "applications-games-symbolic"@,
            ApplicationCategory::Graphics => "applications-graphics-symbolic"@,
            ApplicationCategory::Network => "network-workgroup-symbolic"@,
            ApplicationCategory::Office => "applications-office-symbolic"@,
            ApplicationCategory::Science => "applications-science-symbolic"@,
            ApplicationCategory::Settings => "preferences-system-symbolic"@,
            ApplicationCategory::System => "applications-system-symbolic"@,
            ApplicationCategory::Utility => "applications-utilities-symbolic"@,
        }
    }

    /// The freedesktop main category that a desktop entry lists to belong
    /// here; empty for the two groups that no entry names.
    pub open spec fn mime_name(self) -> Seq<char> {
        match self {
            ApplicationCategory::All => ""@,
            ApplicationCategory::RecentlyUsed => ""@,
            ApplicationCategory::Audio => "Audio"@,
            ApplicationCategory::Video => "Video"@,
            ApplicationCategory::Development => "Development"@,
            ApplicationCategory::Games => "Game"@,
            ApplicationCategory::Graphics => "Graphics"@,
            ApplicationCategory::Network => "Network"@,
            ApplicationCategory::Office => "Office"@,
            ApplicationCategory::Science => "Science"@,
            ApplicationCategory::Settings => "Settings"@,
            ApplicationCategory::System => "System"@,
            ApplicationCategory::Utility => "Utility"@,
        }
    }

    pub fn get_display_name(self) -> (r: String)
        ensures
            r@ == self.display_name(),
    {
        let s = match self {
            ApplicationCategory::All => "All Applications",
            ApplicationCategory::RecentlyUsed => "Recently Used",
            ApplicationCategory::Audio => "Audio",
            ApplicationCategory::Video => "Video",
            ApplicationCategory::Development => "Development",
            ApplicationCategory::Games => "Games",
            ApplicationCategory::Graphics => "Graphics",
            ApplicationCategory::Network => "Network",
            ApplicationCategory::Office => "Office",
            ApplicationCategory::Science => "Science",
            ApplicationCategory::Settings => "Settings",
            ApplicationCategory::System => "System",
            ApplicationCategory::Utility => "Utilities",
        };
        String::from_str(s)
    }

    pub fn get_icon_name(self) -> (r: &'static str)
        ensures
            r@ == self.icon_name(),
    {
        match self {
            ApplicationCategory::All => "open-menu-symbolic",
            ApplicationCategory::RecentlyUsed => "document-open-recent-symbolic",
            ApplicationCategory::Audio => "applications-audio-symbolic",
            ApplicationCategory::Video => "applications-video-symbolic",
            ApplicationCategory::Development => "applications-engineering-symbolic",
            ApplicationCategory::Games => "applications-games-symbolic",
            ApplicationCategory::Graphics => "applications-graphics-symbolic",
            ApplicationCategory::Network => "network-workgroup-symbolic",
            ApplicationCategory::Office => "applications-office-symbolic",
            ApplicationCategory::Science => "applications-science-symbolic",
            ApplicationCategory::Settings => "preferences-system-symbolic",
            ApplicationCategory::System => "applications-system-symbolic",
            ApplicationCategory::Utility => "applications-utilities-symbolic",
        }
    }

    /// The category as text: its freedesktop main category.
    pub fn to_string(self) -> (r: String)
        ensures
            r@ == self.mime_name(),
    {
        String::from_str(self.get_mime_name())
    }

    pub fn get_mime_name(self) -> (r: &'static str)
        ensures
            r@ == self.mime_name(),
    {
        match self {
            ApplicationCategory::All => "",
            ApplicationCategory::RecentlyUsed => "",
            ApplicationCategory::Audio => "Audio",
            ApplicationCategory::Video => "Video",
            ApplicationCategory::Development => "Development",
            ApplicationCategory::Games => "Game",
            ApplicationCategory::Graphics => "Graphics",
            ApplicationCategory::Network => "Network",
            ApplicationCategory::Office => "Office",
            ApplicationCategory::Science => "Science",
            ApplicationCategory::Settings => "Settings",
            ApplicationCategory::System => "System",
            ApplicationCategory::Utility => "Utility",
        }
    }
}

/// An installed application as the menu sees it: the fields of its desktop
/// entry that the menu reads.
#[derive(Debug)]
pub struct AppEntry {
    pub id: String,
    pub name: String,
    pub command: Option<String>,
    pub categories: Vec<String>,
    pub path: Option<String>,
    pub is_terminal: bool,
}

/// What an `AppEntry` holds, as mathematical values.
pub struct AppEntryView {
    pub id: Seq<char>,
    pub name: Seq<char>,
    pub command: Option<Seq<char>>,
    pub categories: Seq<Seq<char>>,
    pub path: Option<Seq<char>>,
    pub is_terminal: bool,
}

pub open spec fn opt_view(o: Option<String>) -> Option<Seq<char>> {
    match o {
        Some(s) => Some(s@),
        None => None,
    }
}

pub open spec fn strings_view(v: Seq<String>) -> Seq<Seq<char>> {
    v.map_values(|s: String| s@)
}

impl View for AppEntry {
    type V = AppEntryView;

    open spec fn view(&self) -> AppEntryView {
        AppEntryView {
            id: self.id@,
            name: self.name@,
            command: opt_view(self.command),
            categories: strings_view(self.categories@),
            path: opt_view(self.path),
            is_terminal: self.is_terminal,
        }
    }
}

/// The views of a list of entries, in order.
pub open spec fn entries_view(s: Seq<AppEntry>) -> Seq<AppEntryView> {
    s.map_values(|e: AppEntry| e@)
}

fn clone_opt(o: &Option<String>) -> (r: Option<String>)
    ensures
        opt_view(r) == opt_view(*o),
{
    match o {
        Some(s) => Some(s.clone()),
        None => None,
    }
}

impl Clone for AppEntry {
    fn clone(&self) -> (r: AppEntry)
        ensures
            r@ == self@,
    {
        let categories = self.categories.clone();
        assert(strings_view(categories@) =~= strings_view(self.categories@));
        AppEntry {
            id: self.id.clone(),
            name: self.name.clone(),
            command: clone_opt(&self.command),
            categories,
            path: clone_opt(&self.path),
            is_terminal: self.is_terminal,
        }
    }
}

/// An entry belongs to a category when its desktop entry lists that name.
pub open spec fn in_category(e: AppEntryView, category: Seq<char>) -> bool {
    e.categories.contains(category)
}

/// Whether two strings hold the same characters.
pub fn same_text(a: &str, b: &str) -> (r: bool)
    ensures
        r == (a@ == b@),
{
    let n = a.unicode_len();
    if n != b.unicode_len() {
        return false;
    }
    let mut i: usize = 0;
    while i < n
        invariant
            n == a@.len(),
            n == b@.len(),
            i <= n,
            a@.subrange(0, i as int) == b@.subrange(0, i as int),
        decreases n - i,
    {
        if a.get_char(i) != b.get_char(i) {
            return false;
        }
        assert(a@.subrange(0, i + 1) =~= a@.subrange(0, i as int).push(a@[i as int]));
        assert(b@.subrange(0, i + 1) =~= b@.subrange(0, i as int).push(b@[i as int]));
        i += 1;
    }
    assert(a@ =~= a@.subrange(0, n as int));
    assert(b@ =~= b@.subrange(0, n as int));
    true
}

/// Whether `categories` holds `category`.
pub fn lists_category(categories: &Vec<String>, category: &str) -> (r: bool)
    ensures
        r == strings_view(categories@).contains(category@),
{
    let mut i: usize = 0;
    while i < categories.len()
        invariant
            i <= categories@.len(),
            forall|k: int| 0 <= k < i ==> categories@[k]@ != category@,
        decreases categories@.len() - i,
    {
        if same_text(categories[i].as_str(), category) {
            assert(strings_view(categories@)[i as int] == category@);
            return true;
        }
        i += 1;
    }
    proof {
        if strings_view(categories@).contains(category@) {
            let k = choose|k: int| 0 <= k < strings_view(categories@).len()
                && strings_view(categories@)[k] == category@;
            assert(categories@[k]@ == category@);
        }
    }
    false
}

/// The entries of `apps` that list `category`, in their order.
pub fn filter_by_category(apps: &Vec<AppEntry>, category: &str) -> (r: Vec<AppEntry>)
    ensures
        entries_view(r@) == entries_view(apps@).filter(|e: AppEntryView| in_category(e, category@)),
{
    let ghost pred = |e: AppEntryView| in_category(e, category@);
    let mut r: Vec<AppEntry> = Vec::new();
    let mut i: usize = 0;
    while i < apps.len()
        invariant
            i <= apps@.len(),
            pred == (|e: AppEntryView| in_category(e, category@)),
            entries_view(r@) == entries_view(apps@.subrange(0, i as int)).filter(pred),
        decreases apps@.len() - i,
    {
        let ghost before = apps@.subrange(0, i as int);
        let ghost old_r = r@;
        proof {
            assert(apps@.subrange(0, i + 1) =~= before.push(apps@[i as int]));
            assert(entries_view(before.push(apps@[i as int])) =~= entries_view(before).push(
                apps@[i as int]@,
            ));
            entries_view(before).lemma_filter_push(apps@[i as int]@, pred);
        }
        let keep = lists_category(&apps[i].categories, category);
        if keep {
            let e = apps[i].clone();
            r.push(e);
            assert(entries_view(r@) =~= entries_view(old_r).push(e@));
        }
        i += 1;
    }
    assert(apps@.subrange(0, apps@.len() as int) =~= apps@);
    r
}

/// A copy of each entry, in order.
pub fn copy_entries(apps: &Vec<AppEntry>) -> (r: Vec<AppEntry>)
    ensures
        entries_view(r@) == entries_view(apps@),
{
    let mut r: Vec<AppEntry> = Vec::new();
    let mut i: usize = 0;
    while i < apps.len()
        invariant
            i <= apps@.len(),
            entries_view(r@) == entries_view(apps@.subrange(0, i as int)),
        decreases apps@.len() - i,
    {
        let ghost old_r = r@;
        let e = apps[i].clone();
        r.push(e);
        assert(entries_view(r@) =~= entries_view(old_r).push(e@));
        assert(entries_view(apps@.subrange(0, i + 1)) =~= entries_view(apps@.subrange(0, i as int)).push(apps@[i as int]@));
        i += 1;
    }
    assert(apps@.subrange(0, apps@.len() as int) =~= apps@);
    r
}

/// The language part of a locale name such as `en-US`: its first two
/// characters.
pub fn language_code(locale: &str) -> (r: String)
    requires
        locale@.len() >= 2,
    ensures
        r@ == locale@.subrange(0, 2),
{
    String::from_str(locale.substring_char(0, 2))
}

} // verus!
