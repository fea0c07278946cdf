//! Plain data types of the status monitor and the settings model.
use vstd::prelude::*;

verus! {

/// The state of Codex as the monitor reports it.
#[derive(Clone, Copy, Debug, PartialEq, Eq, Structural)]
pub enum CodexStatus {
    Offline,
    Idle,
    Thinking,
    Executing,
    WaitingApproval,
    Completed,
    Failed,
}

impl CodexStatus {
    /// The urgency rank of a status: the aggregate of several threads is the one
    /// with the highest rank.
    pub open spec fn rank(self) -> u8 {
        match self {
            CodexStatus::Offline => 0,
            CodexStatus::Idle => 1,
            CodexStatus::Completed => 2,
            CodexStatus::Thinking => 3,
            CodexStatus::Executing => 4,
            CodexStatus::WaitingApproval => 5,
            CodexStatus::Failed => 6,
        }
    }

    pub fn priority(self) -> (r: u8)
        ensures
            r == self.rank(),
    {
        match self {
            CodexStatus::Offline => 0,
            CodexStatus::Idle => 1,
            CodexStatus::Completed => 2,
            CodexStatus::Thinking => 3,
            CodexStatus::Executing => 4,
            CodexStatus::WaitingApproval => 5,
            CodexStatus::Failed => 6,
        }
    }
}

/// Two statuses share a rank only when they are the same status.
pub proof fn lemma_rank_injective(a: CodexStatus, b: CodexStatus)
    ensures
        a.rank() == b.rank() <==> a == b,
{
}

/// The ranks order the statuses from the most to the least urgent:
/// failure, approval, execution, thinking, completion, idleness, offline.
pub proof fn lemma_rank_order()
    ensures
        CodexStatus::Failed.rank() > CodexStatus::WaitingApproval.rank(),
        CodexStatus::WaitingApproval.rank() > CodexStatus::Executing.rank(),
        CodexStatus::Executing.rank() > CodexStatus::Thinking.rank(),
        CodexStatus::Thinking.rank() > CodexStatus::Completed.rank(),
        CodexStatus::Completed.rank() > CodexStatus::Idle.rank(),
        CodexStatus::Idle.rank() > CodexStatus::Offline.rank(),
        forall|s: CodexStatus| #[trigger] s.rank() <= CodexStatus::Failed.rank(),
{
}

} // verus!

verus! {

/// How much of a thread's state could be observed.
#[derive(Clone, Copy, Debug, PartialEq, Eq, Structural)]
pub enum ThreadConfidence {
    /// The rollout file was read without malformed lines.
    Normal,
    /// The state is guessed from the database, or the rollout had malformed lines.
    Limited,
}

/// One Codex thread as the monitor shows it.
#[derive(Debug, PartialEq)]
pub struct ThreadState {
    pub id: String,
    pub title: String,
    pub status: CodexStatus,
    pub status_since: i64,
    pub last_changed_at: i64,
    pub confidence: ThreadConfidence,
}

impl Clone for ThreadState {
    fn clone(&self) -> (r: Self)
        ensures
            r == *self,
    {
        ThreadState {
            id: self.id.clone(),
            title: self.title.clone(),
            status: self.status,
            status_since: self.status_since,
            last_changed_at: self.last_changed_at,
            confidence: self.confidence,
        }
    }
}

/// Two threads that show the same: same texts, status, times and confidence.
pub open spec fn same_thread(a: ThreadState, b: ThreadState) -> bool {
    &&& a.id@ == b.id@
    &&& a.title@ == b.title@
    &&& a.status == b.status
    &&& a.status_since == b.status_since
    &&& a.last_changed_at == b.last_changed_at
    &&& a.confidence == b.confidence
}

/// Two lists of threads that show the same, thread by thread.
pub open spec fn same_threads(a: Seq<ThreadState>, b: Seq<ThreadState>) -> bool {
    a.len() == b.len() && forall|i: int| 0 <= i < a.len() ==> same_thread(#[trigger] a[i], b[i])
}

/// How well the state source works.
#[derive(Clone, Copy, Debug, PartialEq, Eq, Structural)]
pub enum HealthLevel {
    Healthy,
    Degraded,
    Unavailable,
}

/// The health of the state source, with a message for the user.
#[derive(Debug, PartialEq)]
pub struct ProviderHealth {
    pub level: HealthLevel,
    pub message: String,
    pub last_successful_read: Option<i64>,
}

impl Clone for ProviderHealth {
    fn clone(&self) -> (r: Self)
        ensures
            r == *self,
    {
        ProviderHealth {
            level: self.level,
            message: self.message.clone(),
            last_successful_read: self.last_successful_read,
        }
    }
}

/// Everything the monitor shows at one moment.
#[derive(Debug, PartialEq)]
pub struct StatusSnapshot {
    /// The most urgent status among the threads.
    pub aggregate: CodexStatus,
    pub threads: Vec<ThreadState>,
    pub health: ProviderHealth,
    /// When the snapshot was taken, in milliseconds since the epoch.
    pub observed_at: i64,
}

/// The corner of the work area that the floating window keeps its distance to.
#[derive(Clone, Copy, Debug, PartialEq, Eq, Structural)]
pub enum WindowAnchor {
    TopLeft,
    TopRight,
    BottomLeft,
    BottomRight,
}

impl Default for WindowAnchor {
    fn default() -> (r: Self)
        ensures
            r == WindowAnchor::TopRight,
    {
        WindowAnchor::TopRight
    }
}

/// The distance of the default window position from the corner of the work area.
pub const EDGE_GAP: i32 = 24;

/// The bits (`f64::to_bits`) of the scale factor 1.0.
pub const UNIT_SCALE_BITS: u64 = 0x3ff0000000000000;

/// The bits (`f64::to_bits`) of the default window opacity 0.94.
pub const DEFAULT_OPACITY_BITS: u64 = 0x3fee147ae147ae14;

/// Where the floating window sits: the corner it is anchored to and its distance
/// from that corner, in physical pixels.
#[derive(Debug, PartialEq)]
pub struct WindowPlacement {
    pub monitor_name: Option<String>,
    pub anchor: WindowAnchor,
    pub offset_x: i32,
    pub offset_y: i32,
    /// The bits (`f64::to_bits`) of the monitor scale factor at which the
    /// placement was recorded; carried unchanged, never computed with here.
    pub scale_factor_bits: u64,
}

impl Clone for WindowPlacement {
    fn clone(&self) -> (r: Self)
        ensures
            r == *self,
    {
        WindowPlacement {
            monitor_name: match &self.monitor_name {
                Some(n) => Some(n.clone()),
                None => None,
            },
            anchor: self.anchor,
            offset_x: self.offset_x,
            offset_y: self.offset_y,
            scale_factor_bits: self.scale_factor_bits,
        }
    }
}

/// The placement used when none is remembered: top right, 24 pixels from the edges.
pub open spec fn default_placement() -> WindowPlacement {
    WindowPlacement {
        monitor_name: None,
        anchor: WindowAnchor::TopRight,
        offset_x: EDGE_GAP,
        offset_y: EDGE_GAP,
        scale_factor_bits: UNIT_SCALE_BITS,
    }
}

impl Default for WindowPlacement {
    fn default() -> (r: Self)
        ensures
            r == default_placement(),
    {
        WindowPlacement {
            monitor_name: None,
            anchor: WindowAnchor::TopRight,
            offset_x: EDGE_GAP,
            offset_y: EDGE_GAP,
            scale_factor_bits: UNIT_SCALE_BITS,
        }
    }
}

/// The value of the settings that are on unless the settings file turns them off.
pub fn yes() -> (r: bool)
    ensures
        r,
{
    true
}

/// The user's settings.
#[derive(Debug, PartialEq)]
pub struct AppSettings {
    /// The bits (`f64::to_bits`) of the window opacity; carried unchanged, never
    /// computed with here.
    pub opacity_bits: u64,
    pub animations: bool,
    pub always_on_top: bool,
    pub edge_snap: bool,
    pub launch_at_startup: bool,
    pub remember_position: bool,
    pub double_click_focus: bool,
    pub show_provider_warnings: bool,
    pub placement: Option<WindowPlacement>,
    /// Window position stored by early versions; read once, then dropped.
    pub window_x: Option<i32>,
    /// Window position stored by early versions; read once, then dropped.
    pub window_y: Option<i32>,
    /// Pause flag of early versions; always cleared.
    pub paused: bool,
}

fn clone_placement(p: &Option<WindowPlacement>) -> (r: Option<WindowPlacement>)
    ensures
        r == *p,
{
    match p {
        Some(v) => Some(v.clone()),
        None => None,
    }
}

impl Clone for AppSettings {
    fn clone(&self) -> (r: Self)
        ensures
            r == *self,
    {
        AppSettings {
            opacity_bits: self.opacity_bits,
            animations: self.animations,
            always_on_top: self.always_on_top,
            edge_snap: self.edge_snap,
            launch_at_startup: self.launch_at_startup,
            remember_position: self.remember_position,
            double_click_focus: self.double_click_focus,
            show_provider_warnings: self.show_provider_warnings,
            placement: clone_placement(&self.placement),
            window_x: self.window_x,
            window_y: self.window_y,
            paused: self.paused,
        }
    }
}

/// The settings of a first start.
pub open spec fn default_settings() -> AppSettings {
    AppSettings {
        opacity_bits: DEFAULT_OPACITY_BITS,
        animations: true,
        always_on_top: true,
        edge_snap: true,
        launch_at_startup: false,
        remember_position: true,
        double_click_focus: true,
        show_provider_warnings: true,
        placement: None,
        window_x: None,
        window_y: None,
        paused: false,
    }
}

impl Default for AppSettings {
    fn default() -> (r: Self)
        ensures
            r == default_settings(),
    {
        AppSettings {
            opacity_bits: DEFAULT_OPACITY_BITS,
            animations: yes(),
            always_on_top: yes(),
            edge_snap: yes(),
            launch_at_startup: false,
            remember_position: yes(),
            double_click_focus: yes(),
            show_provider_warnings: yes(),
            placement: None,
            window_x: None,
            window_y: None,
            paused: false,
        }
    }
}

/// The placement after migration: a missing placement is built from the early
/// window coordinates when both are present, anchored top left.
pub open spec fn migrated_placement(s: AppSettings) -> Option<WindowPlacement> {
    match (s.placement, s.window_x, s.window_y) {
        (None, Some(x), Some(y)) => Some(
            WindowPlacement {
                monitor_name: None,
                anchor: WindowAnchor::TopLeft,
                offset_x: x,
                offset_y: y,
                scale_factor_bits: UNIT_SCALE_BITS,
            },
        ),
        _ => s.placement,
    }
}

/// The settings after normalisation: placement migrated, early fields cleared,
/// everything else kept.
pub open spec fn normalized_settings(s: AppSettings) -> AppSettings {
    AppSettings {
        placement: migrated_placement(s),
        window_x: None,
        window_y: None,
        paused: false,
        ..s
    }
}

/// Normalising twice is normalising once.
pub proof fn lemma_normalized_idempotent(s: AppSettings)
    ensures
        normalized_settings(normalized_settings(s)) == normalized_settings(s),
{
}

impl AppSettings {
    /// Migrates the early window coordinates into a placement (at scale factor
    /// 1.0) and clears the fields of early versions. Bringing the opacity into
    /// its range is float arithmetic and is left to the caller.
    pub fn normalized(self) -> (r: Self)
        ensures
            r == normalized_settings(self),
            r.opacity_bits == self.opacity_bits,
            r.animations == self.animations,
            r.always_on_top == self.always_on_top,
            r.edge_snap == self.edge_snap,
            r.launch_at_startup == self.launch_at_startup,
            r.remember_position == self.remember_position,
            r.double_click_focus == self.double_click_focus,
            r.show_provider_warnings == self.show_provider_warnings,
            self.placement is Some ==> r.placement == self.placement,
            (self.placement is None && self.window_x is Some && self.window_y is Some) ==> (
            r.placement matches Some(p) && p.anchor == WindowAnchor::TopLeft && p.offset_x
                == self.window_x->0 && p.offset_y == self.window_y->0 && p.monitor_name is None),
            (self.placement is None && (self.window_x is None || self.window_y is None))
                ==> r.placement is None,
            r.window_x is None && r.window_y is None && !r.paused,
    {
        let mut s = self;
        if s.placement.is_none() {
            match (s.window_x, s.window_y) {
                (Some(x), Some(y)) => {
                    s.placement = Some(
                        WindowPlacement {
                            monitor_name: None,
                            anchor: WindowAnchor::TopLeft,
                            offset_x: x,
                            offset_y: y,
                            scale_factor_bits: UNIT_SCALE_BITS,
                        },
                    );
                },
                _ => {},
            }
        }
        s.window_x = None;
        s.window_y = None;
        s.paused = false;
        s
    }

    /// The placement the window is restored to: the stored one when positions are
    /// remembered, none otherwise.
    pub fn remembered_placement(&self) -> (r: Option<WindowPlacement>)
        ensures
            r == (if self.remember_position {
                self.placement
            } else {
                None
            }),
    {
        if self.remember_position {
            clone_placement(&self.placement)
        } else {
            None
        }
    }

    /// Whether moving the window calls for any work: snapping or remembering.
    pub fn follows_window_moves(&self) -> (r: bool)
        ensures
            r == (self.remember_position || self.edge_snap),
    {
        self.remember_position || self.edge_snap
    }
}

/// A source of status snapshots.
pub trait CodexStateProvider: Send {
    /// Observes the current state.
    fn snapshot(&mut self) -> StatusSnapshot;
}

} // verus!

verus! {

/// Normalising keeps every setting the user chose: opacity, animations, always
/// on top, edge snapping, launch at startup, remembering the position, double
/// click focus and provider warnings are unchanged; a stored placement is kept;
/// without one, both early coordinates give a top-left placement at those
/// offsets and otherwise none; the early fields end cleared.
pub proof fn lemma_normalized_keeps_choices(s: AppSettings)
    ensures
        ({
            let r = normalized_settings(s);
            &&& r.opacity_bits == s.opacity_bits
            &&& r.animations == s.animations
            &&& r.always_on_top == s.always_on_top
            &&& r.edge_snap == s.edge_snap
            &&& r.launch_at_startup == s.launch_at_startup
            &&& r.remember_position == s.remember_position
            &&& r.double_click_focus == s.double_click_focus
            &&& r.show_provider_warnings == s.show_provider_warnings
            &&& s.placement is Some ==> r.placement == s.placement
            &&& (s.placement is None && s.window_x is Some && s.window_y is Some) ==> (
            r.placement matches Some(p) && p.anchor == WindowAnchor::TopLeft && p.offset_x
                == s.window_x->0 && p.offset_y == s.window_y->0 && p.monitor_name is None)
            &&& (s.placement is None && (s.window_x is None || s.window_y is None)) ==> r.placement is None
            &&& r.window_x is None && r.window_y is None && !r.paused
        }),
{
}

} // verus!
