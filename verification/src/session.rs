//! The user-facing state machine: the settings being edited and previewed, the
//! tray menu commands, and what a poll of the provider announces.
use vstd::prelude::*;
use crate::model::{
    AppSettings, CodexStatus, HealthLevel, ProviderHealth, StatusSnapshot, ThreadState,
    normalized_settings, same_thread, same_threads,
};
use crate::text::same_text;

verus! {

/// The settings in force and, while a preview is shown, the settings from
/// before the first preview.
#[derive(Debug, PartialEq)]
pub struct SettingsSession {
    pub settings: AppSettings,
    pub preview_original: Option<AppSettings>,
}

/// The session after a preview of some settings.
pub open spec fn previewed(st: SettingsSession) -> SettingsSession {
    SettingsSession {
        settings: st.settings,
        preview_original: match st.preview_original {
            Some(o) => Some(o),
            None => Some(st.settings),
        },
    }
}

/// The settings a cancelled preview goes back to.
pub open spec fn cancel_target(st: SettingsSession) -> AppSettings {
    match st.preview_original {
        Some(o) => o,
        None => st.settings,
    }
}

/// The session after `k` previews.
pub open spec fn after_previews(st: SettingsSession, k: nat) -> SettingsSession
    decreases k,
{
    if k == 0 {
        st
    } else {
        previewed(after_previews(st, (k - 1) as nat))
    }
}

/// However many previews were shown since the last save, cancelling goes back
/// to the settings in force before the first of them.
pub proof fn lemma_cancel_restores_settings(st: SettingsSession, k: nat)
    requires
        st.preview_original is None,
    ensures
        cancel_target(after_previews(st, k)) == st.settings,
        after_previews(st, k).settings == st.settings,
    decreases k,
{
    if k > 0 {
        lemma_cancel_restores_settings(st, (k - 1) as nat);
    }
}

impl SettingsSession {
    /// A session with these settings in force and no preview.
    pub fn new(settings: AppSettings) -> (r: SettingsSession)
        ensures
            r.settings == settings,
            r.preview_original is None,
    {
        SettingsSession { settings, preview_original: None }
    }

    /// Starts or continues a preview: the settings to show are the incoming ones
    /// normalised, and the settings in force are kept to go back to.
    pub fn preview(&mut self, incoming: AppSettings) -> (shown: AppSettings)
        ensures
            *final(self) == previewed(*old(self)),
            shown == normalized_settings(incoming),
    {
        if self.preview_original.is_none() {
            self.preview_original = Some(self.settings.clone());
        }
        incoming.normalized()
    }

    /// Ends a preview: returns the settings to show again, those from before the
    /// first preview, or the settings in force when there was none.
    pub fn cancel_preview(&mut self) -> (shown: AppSettings)
        ensures
            shown == cancel_target(*old(self)),
            final(self).settings == old(self).settings,
            final(self).preview_original is None,
    {
        match self.preview_original.take() {
            Some(original) => original,
            None => self.settings.clone(),
        }
    }

    /// Puts saved settings in force and ends any preview.
    pub fn commit(&mut self, next: AppSettings)
        ensures
            final(self).settings == next,
            final(self).preview_original is None,
    {
        self.settings = next;
        self.preview_original = None;
    }
}

/// What a tray or context menu item asks for.
#[derive(Clone, Copy, Debug, PartialEq, Eq, Structural)]
pub enum MenuCommand {
    ToggleWindow,
    OpenSettings,
    ToggleAlwaysOnTop,
    ToggleLaunchAtStartup,
    Quit,
    Ignore,
}

/// The command of a menu item id.
pub open spec fn command_of(id: Seq<char>) -> MenuCommand {
    if id == "toggle"@ {
        MenuCommand::ToggleWindow
    } else if id == "settings"@ {
        MenuCommand::OpenSettings
    } else if id == "top"@ {
        MenuCommand::ToggleAlwaysOnTop
    } else if id == "startup"@ {
        MenuCommand::ToggleLaunchAtStartup
    } else if id == "quit"@ {
        MenuCommand::Quit
    } else {
        MenuCommand::Ignore
    }
}

/// The command of a menu item id.
pub fn menu_command(id: &str) -> (r: MenuCommand)
    ensures
        r == command_of(id@),
{
    if same_text(id, "toggle") {
        MenuCommand::ToggleWindow
    } else if same_text(id, "settings") {
        MenuCommand::OpenSettings
    } else if same_text(id, "top") {
        MenuCommand::ToggleAlwaysOnTop
    } else if same_text(id, "startup") {
        MenuCommand::ToggleLaunchAtStartup
    } else if same_text(id, "quit") {
        MenuCommand::Quit
    } else {
        MenuCommand::Ignore
    }
}

/// The settings after a menu command that flips one of them.
pub open spec fn toggled_settings(s: AppSettings, c: MenuCommand) -> Option<AppSettings> {
    match c {
        MenuCommand::ToggleAlwaysOnTop => Some(AppSettings { always_on_top: !s.always_on_top, ..s }),
        MenuCommand::ToggleLaunchAtStartup => Some(
            AppSettings { launch_at_startup: !s.launch_at_startup, ..s },
        ),
        _ => None,
    }
}

/// The settings to save after a menu command, for the commands that flip a
/// setting; `None` for the others.
pub fn settings_after_command(settings: &AppSettings, command: MenuCommand) -> (r: Option<AppSettings>)
    ensures
        r == toggled_settings(*settings, command),
{
    match command {
        MenuCommand::ToggleAlwaysOnTop => {
            let mut next = settings.clone();
            next.always_on_top = !next.always_on_top;
            Some(next)
        },
        MenuCommand::ToggleLaunchAtStartup => {
            let mut next = settings.clone();
            next.launch_at_startup = !next.launch_at_startup;
            Some(next)
        },
        _ => None,
    }
}

/// Choosing the same toggle twice gives back the settings it started from.
pub proof fn lemma_toggle_twice_restores(s: AppSettings, c: MenuCommand)
    ensures
        toggled_settings(s, c) matches Some(t) ==> toggled_settings(t, c) == Some(s),
{
}

/// The label of a status.
pub open spec fn label_of(status: CodexStatus) -> Seq<char> {
    match status {
        CodexStatus::Offline => "离线"@,
        CodexStatus::Idle => "空闲"@,
        CodexStatus::Thinking => "思考中"@,
        CodexStatus::Executing => "执行中"@,
        CodexStatus::WaitingApproval => "等待确认"@,
        CodexStatus::Completed => "已完成"@,
        CodexStatus::Failed => "执行失败"@,
    }
}

/// The label of a status, as the tray shows it.
pub fn status_label(status: CodexStatus) -> (r: &'static str)
    ensures
        r@ == label_of(status),
{
    match status {
        CodexStatus::Offline => "离线",
        CodexStatus::Idle => "空闲",
        CodexStatus::Thinking => "思考中",
        CodexStatus::Executing => "执行中",
        CodexStatus::WaitingApproval => "等待确认",
        CodexStatus::Completed => "已完成",
        CodexStatus::Failed => "执行失败",
    }
}

/// The tray tooltip for an aggregate status.
pub open spec fn tooltip_of(status: CodexStatus) -> Seq<char> {
    "CodePulse · "@ + label_of(status)
}

/// The tray tooltip for an aggregate status.
pub fn tooltip_text(status: CodexStatus) -> (r: String)
    ensures
        r@ == tooltip_of(status),
{
    let mut t = String::from_str("CodePulse · ");
    t.append(status_label(status));
    t
}

/// Whether two snapshots show something different: the aggregate, the threads,
/// or the health level or message. The times are not compared.
pub open spec fn differ(current: StatusSnapshot, next: StatusSnapshot) -> bool {
    !(current.aggregate == next.aggregate && same_threads(current.threads@, next.threads@)
        && current.health.level == next.health.level && current.health.message@
        == next.health.message@)
}

fn same_thread_exec(a: &ThreadState, b: &ThreadState) -> (r: bool)
    ensures
        r == same_thread(*a, *b),
{
    a.status == b.status && a.status_since == b.status_since && a.last_changed_at
        == b.last_changed_at && a.confidence == b.confidence && same_text(a.id.as_str(), b.id.as_str())
        && same_text(a.title.as_str(), b.title.as_str())
}

fn same_threads_exec(a: &Vec<ThreadState>, b: &Vec<ThreadState>) -> (r: bool)
    ensures
        r == same_threads(a@, b@),
{
    if a.len() != b.len() {
        return false;
    }
    let mut i: usize = 0;
    while i < a.len()
        invariant
            a.len() == b.len(),
            i <= a.len(),
            forall|j: int| 0 <= j < i ==> same_thread(#[trigger] a@[j], b@[j]),
        decreases a.len() - i,
    {
        if !same_thread_exec(&a[i], &b[i]) {
            return false;
        }
        i = i + 1;
    }
    true
}

/// Whether the next snapshot must be announced.
pub fn snapshots_differ(current: &StatusSnapshot, next: &StatusSnapshot) -> (r: bool)
    ensures
        r == differ(*current, *next),
        current.aggregate != next.aggregate ==> r,
        current.threads@.len() != next.threads@.len() ==> r,
        forall|i: int|
            0 <= i < current.threads@.len() && i < next.threads@.len() && (#[trigger] current.threads@[i]).status
                != next.threads@[i].status ==> r,
        forall|i: int|
            0 <= i < current.threads@.len() && i < next.threads@.len() && (#[trigger] current.threads@[i]).status_since
                != next.threads@[i].status_since ==> r,
        forall|i: int|
            0 <= i < current.threads@.len() && i < next.threads@.len() && (#[trigger] current.threads@[i]).last_changed_at
                != next.threads@[i].last_changed_at ==> r,
        forall|i: int|
            0 <= i < current.threads@.len() && i < next.threads@.len() && (#[trigger] current.threads@[i]).confidence
                != next.threads@[i].confidence ==> r,
        forall|i: int|
            0 <= i < current.threads@.len() && i < next.threads@.len() && (#[trigger] current.threads@[i]).id@
                != next.threads@[i].id@ ==> r,
        forall|i: int|
            0 <= i < current.threads@.len() && i < next.threads@.len() && (#[trigger] current.threads@[i]).title@
                != next.threads@[i].title@ ==> r,
        current.health.level != next.health.level ==> r,
        current.health.message@ != next.health.message@ ==> r,
        !r ==> current.aggregate == next.aggregate && current.threads@.len() == next.threads@.len()
            && current.health.level == next.health.level && current.health.message@
            == next.health.message@,
{
    current.aggregate != next.aggregate || !same_threads_exec(&current.threads, &next.threads)
        || current.health.level != next.health.level || !same_text(
        current.health.message.as_str(),
        next.health.message.as_str(),
    )
}

/// A snapshot never differs from itself.
pub proof fn lemma_snapshot_same_as_itself(s: StatusSnapshot)
    ensures
        !differ(s, s),
{
}

/// Whether a health differs from the one announced last (always, when none was).
pub open spec fn health_news(previous: Option<ProviderHealth>, next: ProviderHealth) -> bool {
    match previous {
        None => true,
        Some(p) => !(p.level == next.level && p.message@ == next.message@),
    }
}

/// What one poll of the provider announces.
#[derive(Debug, PartialEq)]
pub struct PollOutcome {
    /// The snapshot changed and is announced.
    pub status_changed: bool,
    /// The new tray tooltip, when the snapshot changed.
    pub tooltip: Option<String>,
    /// The provider health changed and is announced.
    pub health_changed: bool,
}

/// The announcements of a poll, and the memory of the last announced health.
#[derive(Debug, PartialEq)]
pub struct PollWatch {
    pub previous_health: Option<ProviderHealth>,
}

impl PollWatch {
    /// Nothing announced yet.
    pub fn new() -> (r: PollWatch)
        ensures
            r.previous_health is None,
    {
        PollWatch { previous_health: None }
    }

    /// Compares the next snapshot with the current one and with the last
    /// announced health; remembers the health when it is announced.
    pub fn observe(&mut self, current: &StatusSnapshot, next: &StatusSnapshot) -> (r: PollOutcome)
        ensures
            r.status_changed == differ(*current, *next),
            r.tooltip matches Some(t) ==> r.status_changed && t@ == tooltip_of(next.aggregate),
            r.tooltip is None ==> !r.status_changed,
            r.health_changed == health_news(old(self).previous_health, next.health),
            r.health_changed ==> final(self).previous_health == Some(next.health),
            !r.health_changed ==> final(self).previous_health == old(self).previous_health,
    {
        let status_changed = snapshots_differ(current, next);
        let tooltip = if status_changed {
            Some(tooltip_text(next.aggregate))
        } else {
            None
        };
        let health_changed = match &self.previous_health {
            None => true,
            Some(p) => !(p.level == next.health.level && same_text(
                p.message.as_str(),
                next.health.message.as_str(),
            )),
        };
        if health_changed {
            self.previous_health = Some(next.health.clone());
        }
        PollOutcome { status_changed, tooltip, health_changed }
    }
}

/// A health that was just announced is not announced again.
pub proof fn lemma_health_announced_once(h: ProviderHealth)
    ensures
        !health_news(Some(h), h),
{
}

} // verus!

verus! {

impl SettingsSession {
    /// Records where the window now sits in the settings in force.
    pub fn remember_placement(&mut self, placement: crate::model::WindowPlacement)
        ensures
            final(self).settings == (AppSettings { placement: Some(placement), ..old(self).settings }),
            final(self).preview_original == old(self).preview_original,
    {
        self.settings.placement = Some(placement);
    }
}

/// One entry of the tray and context menu.
#[derive(Clone, Copy, Debug, PartialEq, Eq)]
pub enum MenuEntry {
    Item { id: &'static str, label: &'static str },
    Check { id: &'static str, label: &'static str, checked: bool },
    Separator,
}

/// The menu entries, in order, as ids, labels and check marks.
pub open spec fn menu_layout(s: AppSettings, entries: Seq<MenuEntry>) -> bool {
    &&& entries.len() == 6
    &&& entries[0] matches MenuEntry::Item { id, label } && id@ == "toggle"@ && label@
        == "显示 / 隐藏"@
    &&& entries[1] matches MenuEntry::Check { id, label, checked } && id@ == "top"@ && label@
        == "始终置顶"@ && checked == s.always_on_top
    &&& entries[2] matches MenuEntry::Check { id, label, checked } && id@ == "startup"@ && label@
        == "开机启动"@ && checked == s.launch_at_startup
    &&& entries[3] matches MenuEntry::Item { id, label } && id@ == "settings"@ && label@ == "设置"@
    &&& entries[4] is Separator
    &&& entries[5] matches MenuEntry::Item { id, label } && id@ == "quit"@ && label@
        == "退出 CodePulse"@
}

/// The menu of the tray icon and of the window, with the check marks of the
/// current settings.
pub fn menu_entries(settings: &AppSettings) -> (r: Vec<MenuEntry>)
    ensures
        menu_layout(*settings, r@),
{
    let mut v: Vec<MenuEntry> = Vec::new();
    v.push(MenuEntry::Item { id: "toggle", label: "显示 / 隐藏" });
    v.push(MenuEntry::Check { id: "top", label: "始终置顶", checked: settings.always_on_top });
    v.push(MenuEntry::Check { id: "startup", label: "开机启动", checked: settings.launch_at_startup });
    v.push(MenuEntry::Item { id: "settings", label: "设置" });
    v.push(MenuEntry::Separator);
    v.push(MenuEntry::Item { id: "quit", label: "退出 CodePulse" });
    v
}

/// Every entry of the menu leads to a command, and the check marks lead to the
/// toggles of the settings they show.
pub proof fn lemma_menu_entries_have_commands(s: AppSettings, entries: Seq<MenuEntry>)
    requires
        menu_layout(s, entries),
    ensures
        forall|i: int|
            0 <= i < entries.len() ==> match #[trigger] entries[i] {
                MenuEntry::Item { id, .. } => command_of(id@) != MenuCommand::Ignore,
                MenuEntry::Check { id, .. } => command_of(id@) != MenuCommand::Ignore,
                MenuEntry::Separator => true,
            },
        entries[1] matches MenuEntry::Check { id, .. } && command_of(id@)
            == MenuCommand::ToggleAlwaysOnTop,
        entries[2] matches MenuEntry::Check { id, .. } && command_of(id@)
            == MenuCommand::ToggleLaunchAtStartup,
{
    broadcast use vstd::string::group_string_axioms;

    reveal_strlit("toggle");
    reveal_strlit("settings");
    reveal_strlit("top");
    reveal_strlit("startup");
    reveal_strlit("quit");
    assert("top"@.len() != "toggle"@.len() && "top"@.len() != "settings"@.len());
    assert("startup"@.len() != "toggle"@.len() && "startup"@.len() != "settings"@.len()
        && "startup"@.len() != "top"@.len());
    assert(command_of("top"@) == MenuCommand::ToggleAlwaysOnTop);
    assert(command_of("startup"@) == MenuCommand::ToggleLaunchAtStartup);
    assert forall|i: int|
        0 <= i < entries.len() implies match #[trigger] entries[i] {
        MenuEntry::Item { id, .. } => command_of(id@) != MenuCommand::Ignore,
        MenuEntry::Check { id, .. } => command_of(id@) != MenuCommand::Ignore,
        MenuEntry::Separator => true,
    } by {
        assert(0 <= i < 6);
    }
}

} // verus!

verus! {

/// Whether a delayed save of the window placement is still due: no move has
/// been recorded since it was scheduled.
pub fn placement_save_due(scheduled_revision: u64, latest_revision: u64) -> (r: bool)
    ensures
        r == (scheduled_revision == latest_revision),
{
    scheduled_revision == latest_revision
}

} // verus!

verus! {

/// Two snapshots differ exactly when the aggregate, the number of threads, any
/// field of a thread at the same place (id, title, status, start, last change,
/// confidence), or the health level or message differs; the observation times
/// and the time of the last successful read do not count.
pub proof fn lemma_differ_by_fields(current: StatusSnapshot, next: StatusSnapshot)
    ensures
        differ(current, next) <==> !({
            &&& current.aggregate == next.aggregate
            &&& current.threads@.len() == next.threads@.len()
            &&& forall|i: int|
                0 <= i < current.threads@.len() ==> {
                    &&& (#[trigger] current.threads@[i]).id@ == next.threads@[i].id@
                    &&& current.threads@[i].title@ == next.threads@[i].title@
                    &&& current.threads@[i].status == next.threads@[i].status
                    &&& current.threads@[i].status_since == next.threads@[i].status_since
                    &&& current.threads@[i].last_changed_at == next.threads@[i].last_changed_at
                    &&& current.threads@[i].confidence == next.threads@[i].confidence
                }
            &&& current.health.level == next.health.level
            &&& current.health.message@ == next.health.message@
        }),
{
}

} // verus!
