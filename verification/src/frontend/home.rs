//! The home page: system status, recent activity and what is shown of it.

use vstd::prelude::*;
use crate::account::copy_text;
use crate::text::join;

verus! {

/// The state of the system as the home page reports it.
pub struct SystemStatus {
    pub database_connected: bool,
    pub version: String,
    pub last_backup: Option<String>,
    pub fiscal_year: String,
}

/// An entry of the recent activity list.
pub struct RecentActivity {
    pub id: String,
    pub action: String,
    pub description: String,
    pub timestamp: String,
    pub user: String,
}

/// The contents of a system status.
pub struct SystemStatusView {
    pub database_connected: bool,
    pub version: Seq<char>,
    pub last_backup: Option<Seq<char>>,
    pub fiscal_year: Seq<char>,
}

/// The contents of an activity.
pub struct RecentActivityView {
    pub id: Seq<char>,
    pub action: Seq<char>,
    pub description: Seq<char>,
    pub timestamp: Seq<char>,
    pub user: Seq<char>,
}

impl View for SystemStatus {
    type V = SystemStatusView;

    open spec fn view(&self) -> SystemStatusView {
        SystemStatusView {
            database_connected: self.database_connected,
            version: self.version@,
            last_backup: self.last_backup.deep_view(),
            fiscal_year: self.fiscal_year@,
        }
    }
}

impl View for RecentActivity {
    type V = RecentActivityView;

    open spec fn view(&self) -> RecentActivityView {
        RecentActivityView {
            id: self.id@,
            action: self.action@,
            description: self.description@,
            timestamp: self.timestamp@,
            user: self.user@,
        }
    }
}

/// The state of the home page.
pub struct HomeState {
    pub system_status: Option<SystemStatus>,
    pub recent_activities: Vec<RecentActivity>,
    pub status_loading: bool,
    pub activities_loading: bool,
    pub metrics_loading: bool,
    pub show_all_activities: bool,
}

/// The contents of the home page's state.
pub struct HomeStateView {
    pub system_status: Option<SystemStatusView>,
    pub recent_activities: Seq<RecentActivityView>,
    pub status_loading: bool,
    pub activities_loading: bool,
    pub metrics_loading: bool,
    pub show_all_activities: bool,
}

impl View for HomeState {
    type V = HomeStateView;

    open spec fn view(&self) -> HomeStateView {
        HomeStateView {
            system_status: match self.system_status {
                Some(s) => Some(s@),
                None => None,
            },
            recent_activities: self.recent_activities@.map_values(|a: RecentActivity| a@),
            status_loading: self.status_loading,
            activities_loading: self.activities_loading,
            metrics_loading: self.metrics_loading,
            show_all_activities: self.show_all_activities,
        }
    }
}

/// What happens on the home page: each part of its data arrives, or the
/// user shows or hides the activity list.
pub enum HomeEvent {
    StatusLoaded(SystemStatus),
    ActivitiesLoaded(Vec<RecentActivity>),
    MetricsLoaded,
    ActivitiesToggled,
}

/// Work started when the page is shown: each part of its data is loaded
/// after a delay (in milliseconds).
#[derive(Clone, Copy, Debug, PartialEq, Eq, Structural)]
pub enum HomeTask {
    LoadStatus { delay_ms: u64 },
    LoadActivities { delay_ms: u64 },
    LoadMetrics { delay_ms: u64 },
}

/// What the activity section shows.
#[derive(Clone, Copy, Debug, PartialEq, Eq, Structural)]
pub enum ActivitySection {
    Loading,
    Empty,
    List { shown: usize },
}

/// What the status section shows.
#[derive(Clone, Copy, Debug, PartialEq, Eq, Structural)]
pub enum StatusSection {
    Loading,
    Shown,
    Unavailable,
}

/// How the page reacts to an event.
pub open spec fn home_transition(s: HomeStateView, e: HomeEvent) -> HomeStateView {
    match e {
        HomeEvent::StatusLoaded(st) => HomeStateView {
            system_status: Some(st@),
            status_loading: false,
            ..s
        },
        HomeEvent::ActivitiesLoaded(v) => HomeStateView {
            recent_activities: v@.map_values(|a: RecentActivity| a@),
            activities_loading: false,
            ..s
        },
        HomeEvent::MetricsLoaded => HomeStateView { metrics_loading: false, ..s },
        HomeEvent::ActivitiesToggled => HomeStateView {
            show_all_activities: !s.show_all_activities,
            ..s
        },
    }
}

/// How many activities the list takes: all of them when expanded, at most
/// three otherwise.
pub open spec fn activities_shown(len: nat, show_all: bool) -> nat {
    if show_all || len <= 3 {
        len
    } else {
        3
    }
}

/// How many activities the list takes (see `activities_shown`).
pub fn activities_to_show(len: usize, show_all: bool) -> (r: usize)
    ensures
        r == activities_shown(len as nat, show_all),
{
    if show_all {
        len
    } else if len < 3 {
        len
    } else {
        3
    }
}

/// The initial shown for an activity: the first character of its action,
/// or "A" when the action is empty.
pub fn activity_initial(action: &str) -> (r: String)
    ensures
        r@ == (if action@.len() > 0 { action@.subrange(0, 1) } else { "A"@ }),
{
    if action.unicode_len() > 0 {
        action.substring_char(0, 1).to_owned()
    } else {
        "A".to_owned()
    }
}

/// The text shown for the database connection.
pub fn connection_label(connected: bool) -> (r: &'static str)
    ensures
        r@ == (if connected { "Connected"@ } else { "Disconnected"@ }),
{
    if connected {
        "Connected"
    } else {
        "Disconnected"
    }
}

/// The style shown for the database connection.
pub fn connection_class(connected: bool) -> (r: &'static str)
    ensures
        r@ == (if connected { "text-green-600"@ } else { "text-red-600"@ }),
{
    if connected {
        "text-green-600"
    } else {
        "text-red-600"
    }
}

/// The text shown for the last backup.
pub fn backup_label(last_backup: &Option<String>) -> (r: &'static str)
    ensures
        r@ == (if last_backup is Some { "Today 06:00 AM"@ } else { "Never"@ }),
{
    match last_backup {
        Some(_) => "Today 06:00 AM",
        None => "Never",
    }
}

/// The text shown for the version: "v" and the version.
pub fn version_label(version: &str) -> (r: String)
    ensures
        r@ == "v"@ + version@,
{
    join("v", version)
}

/// The status the page reports (the sample data it shows).
pub fn sample_system_status() -> (r: SystemStatus)
    ensures
        r@ == (SystemStatusView {
            database_connected: true,
            version: "1.0.0"@,
            last_backup: Some("2025-03-04T06:00:00Z"@),
            fiscal_year: "2025"@,
        }),
{
    SystemStatus {
        database_connected: true,
        version: "1.0.0".to_owned(),
        last_backup: Some("2025-03-04T06:00:00Z".to_owned()),
        fiscal_year: "2025".to_owned(),
    }
}

/// An activity with the given texts.
fn activity(id: &str, action: &str, description: &str, timestamp: &str, user: &str) -> (r:
    RecentActivity)
    ensures
        r@ == (RecentActivityView {
            id: id@,
            action: action@,
            description: description@,
            timestamp: timestamp@,
            user: user@,
        }),
{
    RecentActivity {
        id: id.to_owned(),
        action: action.to_owned(),
        description: description.to_owned(),
        timestamp: timestamp.to_owned(),
        user: user.to_owned(),
    }
}

/// The recent activity the page reports (the sample data it shows).
pub open spec fn sample_activity_views() -> Seq<RecentActivityView> {
    seq![
        RecentActivityView {
            id: "act1"@,
            action: "Journal Entry"@,
            description: "Created invoice payment #INV-2025-042"@,
            timestamp: "10 minutes ago"@,
            user: "John Doe"@,
        },
        RecentActivityView {
            id: "act2"@,
            action: "Account Created"@,
            description: "Added new expense account 'Office Supplies'"@,
            timestamp: "2 hours ago"@,
            user: "Jane Smith"@,
        },
        RecentActivityView {
            id: "act3"@,
            action: "Report Generated"@,
            description: "Monthly P&L statement for February 2025"@,
            timestamp: "Yesterday"@,
            user: "John Doe"@,
        },
    ]
}

/// The recent activity the page reports (the sample data it shows).
pub fn sample_recent_activities() -> (r: Vec<RecentActivity>)
    ensures
        r@.map_values(|a: RecentActivity| a@) == sample_activity_views(),
{
    let mut r: Vec<RecentActivity> = Vec::new();
    r.push(
        activity(
            "act1",
            "Journal Entry",
            "Created invoice payment #INV-2025-042",
            "10 minutes ago",
            "John Doe",
        ),
    );
    r.push(
        activity(
            "act2",
            "Account Created",
            "Added new expense account 'Office Supplies'",
            "2 hours ago",
            "Jane Smith",
        ),
    );
    r.push(
        activity(
            "act3",
            "Report Generated",
            "Monthly P&L statement for February 2025",
            "Yesterday",
            "John Doe",
        ),
    );
    assert(r@.map_values(|a: RecentActivity| a@) =~= sample_activity_views());
    r
}

impl SystemStatus {
    /// An independent copy of the status.
    pub fn duplicate(&self) -> (r: SystemStatus)
        ensures
            r@ == self@,
    {
        SystemStatus {
            database_connected: self.database_connected,
            version: self.version.clone(),
            last_backup: copy_text(&self.last_backup),
            fiscal_year: self.fiscal_year.clone(),
        }
    }
}

impl HomeState {
    /// The page as first shown: every part loading, nothing loaded, the
    /// activity list collapsed.
    pub fn new() -> (r: HomeState)
        ensures
            r@.system_status is None,
            r@.recent_activities.len() == 0,
            r@.status_loading && r@.activities_loading && r@.metrics_loading,
            !r@.show_all_activities,
    {
        let r = HomeState {
            system_status: None,
            recent_activities: Vec::new(),
            status_loading: true,
            activities_loading: true,
            metrics_loading: true,
            show_all_activities: false,
        };
        assert(r@.recent_activities.len() == 0);
        r
    }

    /// The work started when the page is shown: the status after 800 ms,
    /// the activities after 1200 ms, the metrics after 1500 ms.
    pub fn mount_tasks() -> (r: Vec<HomeTask>)
        ensures
            r@ == seq![
                HomeTask::LoadStatus { delay_ms: 800 },
                HomeTask::LoadActivities { delay_ms: 1200 },
                HomeTask::LoadMetrics { delay_ms: 1500 },
            ],
    {
        let r = vec![
            HomeTask::LoadStatus { delay_ms: 800 },
            HomeTask::LoadActivities { delay_ms: 1200 },
            HomeTask::LoadMetrics { delay_ms: 1500 },
        ];
        assert(r@ =~= seq![
            HomeTask::LoadStatus { delay_ms: 800 },
            HomeTask::LoadActivities { delay_ms: 1200 },
            HomeTask::LoadMetrics { delay_ms: 1500 },
        ]);
        r
    }

    /// Reacts to an event (see `home_transition`).
    pub fn handle(&mut self, event: HomeEvent)
        ensures
            final(self)@ == home_transition(old(self)@, event),
    {
        match event {
            HomeEvent::StatusLoaded(s) => {
                self.system_status = Some(s);
                self.status_loading = false;
            },
            HomeEvent::ActivitiesLoaded(v) => {
                self.recent_activities = v;
                self.activities_loading = false;
            },
            HomeEvent::MetricsLoaded => {
                self.metrics_loading = false;
            },
            HomeEvent::ActivitiesToggled => {
                self.show_all_activities = !self.show_all_activities;
            },
        }
    }

    /// What the activity section shows: a loading notice, a notice that
    /// there is no activity, or the list, of which the activities are shown
    /// only while it is expanded.
    pub fn activity_section(&self) -> (r: ActivitySection)
        ensures
            r == (if self.activities_loading {
                ActivitySection::Loading
            } else if self.recent_activities@.len() == 0 {
                ActivitySection::Empty
            } else {
                ActivitySection::List {
                    shown: if self.show_all_activities {
                        activities_shown(self.recent_activities@.len(), true) as usize
                    } else {
                        0
                    },
                }
            }),
    {
        if self.activities_loading {
            ActivitySection::Loading
        } else if self.recent_activities.len() == 0 {
            ActivitySection::Empty
        } else {
            let shown: usize = if self.show_all_activities {
                activities_to_show(self.recent_activities.len(), true)
            } else {
                0
            };
            ActivitySection::List { shown }
        }
    }

    /// The label of the button that expands or collapses the list.
    pub fn activities_button_label(&self) -> (r: &'static str)
        ensures
            r@ == (if self.show_all_activities { "Show fewer"@ } else { "View all activity"@ }),
    {
        if self.show_all_activities {
            "Show fewer"
        } else {
            "View all activity"
        }
    }

    /// What the status section shows: a loading notice, the status, or a
    /// notice that it is unavailable.
    pub fn status_section(&self) -> (r: StatusSection)
        ensures
            r == (if self.status_loading {
                StatusSection::Loading
            } else if self.system_status is Some {
                StatusSection::Shown
            } else {
                StatusSection::Unavailable
            }),
    {
        if self.status_loading {
            StatusSection::Loading
        } else if self.system_status.is_some() {
            StatusSection::Shown
        } else {
            StatusSection::Unavailable
        }
    }
}

/// Every activity loaded is shown once the list is expanded; collapsed,
/// the list takes at most three.
pub proof fn lemma_expanded_list_shows_all(len: nat)
    ensures
        activities_shown(len, true) == len,
        activities_shown(len, false) <= 3,
        activities_shown(len, false) <= len,
{
}

} // verus!
