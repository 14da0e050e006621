//! Deployment data as the dashboard reads it: providers, statuses, events
//! with their CI jobs and steps, cross-provider groups, health and
//! readiness reports.
//!
//! Timestamps are milliseconds since the Unix epoch; texts that are only
//! shown (such as step start times) are held already rendered.

use vstd::prelude::*;

verus! {

/// A deployment provider.
#[derive(Debug, Clone, Copy, PartialEq, Eq, Structural)]
pub enum Platform {
    GitHub,
    Railway,
    Vercel,
}

/// A provider whose credentials the dashboard manages.
#[derive(Debug, Clone, Copy, PartialEq, Eq, Structural)]
pub enum PlatformKind {
    GitHub,
    Railway,
    Vercel,
}

impl PlatformKind {
    /// The providers in their fixed order.
    pub open spec fn spec_at(i: int) -> PlatformKind {
        if i == 0 {
            PlatformKind::GitHub
        } else if i == 1 {
            PlatformKind::Railway
        } else {
            PlatformKind::Vercel
        }
    }

    pub fn at(i: usize) -> (r: PlatformKind)
        requires
            i < 3,
        ensures
            r == PlatformKind::spec_at(i as int),
    {
        if i == 0 {
            PlatformKind::GitHub
        } else if i == 1 {
            PlatformKind::Railway
        } else {
            PlatformKind::Vercel
        }
    }

    pub open spec fn name_of(self) -> Seq<char> {
        match self {
            PlatformKind::GitHub => "GitHub"@,
            PlatformKind::Railway => "Railway"@,
            PlatformKind::Vercel => "Vercel"@,
        }
    }

    /// The provider's name as shown to the user.
    pub fn display_name(self) -> (r: &'static str)
        ensures
            r@ == self.name_of(),
    {
        match self {
            PlatformKind::GitHub => "GitHub",
            PlatformKind::Railway => "Railway",
            PlatformKind::Vercel => "Vercel",
        }
    }
}

/// State of a run, deployment, job or step.
#[derive(Debug, Clone, PartialEq, Eq)]
pub enum DeploymentStatus {
    Success,
    Failed,
    InProgress,
    Queued,
    Cancelled,
    Skipped,
    ActionRequired,
    Sleeping,
    Unknown(String),
}

impl DeploymentStatus {
    /// A copy of the status.
    pub fn duplicate(&self) -> (r: DeploymentStatus)
        ensures
            r == *self,
    {
        match self {
            DeploymentStatus::Success => DeploymentStatus::Success,
            DeploymentStatus::Failed => DeploymentStatus::Failed,
            DeploymentStatus::InProgress => DeploymentStatus::InProgress,
            DeploymentStatus::Queued => DeploymentStatus::Queued,
            DeploymentStatus::Cancelled => DeploymentStatus::Cancelled,
            DeploymentStatus::Skipped => DeploymentStatus::Skipped,
            DeploymentStatus::ActionRequired => DeploymentStatus::ActionRequired,
            DeploymentStatus::Sleeping => DeploymentStatus::Sleeping,
            DeploymentStatus::Unknown(s) => DeploymentStatus::Unknown(s.clone()),
        }
    }

    /// Whether two statuses are the same (an unknown status by its text).
    pub open spec fn same(a: DeploymentStatus, b: DeploymentStatus) -> bool {
        match (a, b) {
            (DeploymentStatus::Unknown(x), DeploymentStatus::Unknown(y)) => x@ == y@,
            (DeploymentStatus::Unknown(_), _) => false,
            (_, DeploymentStatus::Unknown(_)) => false,
            _ => a == b,
        }
    }

    pub fn same_as(&self, other: &DeploymentStatus) -> (r: bool)
        ensures
            r == DeploymentStatus::same(*self, *other),
    {
        match (self, other) {
            (DeploymentStatus::Unknown(x), DeploymentStatus::Unknown(y)) => x.eq(y),
            (DeploymentStatus::Unknown(_), _) => false,
            (_, DeploymentStatus::Unknown(_)) => false,
            (DeploymentStatus::Success, DeploymentStatus::Success) => true,
            (DeploymentStatus::Failed, DeploymentStatus::Failed) => true,
            (DeploymentStatus::InProgress, DeploymentStatus::InProgress) => true,
            (DeploymentStatus::Queued, DeploymentStatus::Queued) => true,
            (DeploymentStatus::Cancelled, DeploymentStatus::Cancelled) => true,
            (DeploymentStatus::Skipped, DeploymentStatus::Skipped) => true,
            (DeploymentStatus::ActionRequired, DeploymentStatus::ActionRequired) => true,
            (DeploymentStatus::Sleeping, DeploymentStatus::Sleeping) => true,
            _ => false,
        }
    }

    /// The status in words, as shown in detail panes.
    pub open spec fn text_of(self) -> Seq<char> {
        match self {
            DeploymentStatus::Success => "success"@,
            DeploymentStatus::Failed => "failed"@,
            DeploymentStatus::InProgress => "in_progress"@,
            DeploymentStatus::Queued => "queued"@,
            DeploymentStatus::Cancelled => "cancelled"@,
            DeploymentStatus::Skipped => "skipped"@,
            DeploymentStatus::ActionRequired => "action_required"@,
            DeploymentStatus::Sleeping => "sleeping"@,
            DeploymentStatus::Unknown(s) => s@,
        }
    }

    pub fn text(&self) -> (r: String)
        ensures
            r@ == self.text_of(),
    {
        match self {
            DeploymentStatus::Success => crate::text::owned("success"),
            DeploymentStatus::Failed => crate::text::owned("failed"),
            DeploymentStatus::InProgress => crate::text::owned("in_progress"),
            DeploymentStatus::Queued => crate::text::owned("queued"),
            DeploymentStatus::Cancelled => crate::text::owned("cancelled"),
            DeploymentStatus::Skipped => crate::text::owned("skipped"),
            DeploymentStatus::ActionRequired => crate::text::owned("action_required"),
            DeploymentStatus::Sleeping => crate::text::owned("sleeping"),
            DeploymentStatus::Unknown(s) => s.clone(),
        }
    }
}

/// One step of a CI job.
#[derive(Debug)]
pub struct JobStepSummary {
    pub number: u32,
    pub name: String,
    pub status: DeploymentStatus,
    pub duration_secs: Option<u64>,
    /// Start time, rendered.
    pub started_at: Option<String>,
    /// Completion time, rendered.
    pub completed_at: Option<String>,
}

/// A CI job with its steps.
#[derive(Debug)]
pub struct JobDetail {
    pub job_id: Option<u64>,
    pub name: String,
    pub status: DeploymentStatus,
    pub html_url: Option<String>,
    pub steps: Vec<JobStepSummary>,
}

/// A CI job as listed on its run (no steps).
#[derive(Debug)]
pub struct JobSummary {
    pub name: String,
    pub status: DeploymentStatus,
}

/// Provider-specific details of an event.
#[derive(Debug)]
pub struct EventMetadata {
    /// Repo, project or service key the event belongs to.
    pub source_id: Option<String>,
    pub workflow_name: Option<String>,
    pub trigger_event: Option<String>,
    pub service_name: Option<String>,
    pub environment_name: Option<String>,
    pub deploy_target: Option<String>,
    pub preview_url: Option<String>,
    pub jobs: Vec<JobSummary>,
    pub job_details: Vec<JobDetail>,
}

impl EventMetadata {
    /// Metadata with nothing filled in.
    pub fn empty() -> (r: Self)
        ensures
            r.source_id is None,
            r.workflow_name is None,
            r.trigger_event is None,
            r.service_name is None,
            r.environment_name is None,
            r.deploy_target is None,
            r.preview_url is None,
            r.jobs@.len() == 0,
            r.job_details@.len() == 0,
    {
        EventMetadata {
            source_id: None,
            workflow_name: None,
            trigger_event: None,
            service_name: None,
            environment_name: None,
            deploy_target: None,
            preview_url: None,
            jobs: Vec::new(),
            job_details: Vec::new(),
        }
    }
}

/// One CI run or deployment.
#[derive(Debug)]
pub struct DeploymentEvent {
    pub id: String,
    pub platform: Platform,
    pub status: DeploymentStatus,
    pub commit_sha: Option<String>,
    pub branch: Option<String>,
    pub title: Option<String>,
    pub actor: Option<String>,
    /// Creation time, milliseconds since the Unix epoch.
    pub created_at: i64,
    pub updated_at: Option<i64>,
    pub duration_secs: Option<u64>,
    pub url: Option<String>,
    pub metadata: EventMetadata,
    pub is_from_cache: bool,
}

/// Events of one commit grouped across providers.
#[derive(Debug)]
pub struct CorrelatedEvent {
    pub commit_sha: Option<String>,
    pub project_name: Option<String>,
    pub github: Option<DeploymentEvent>,
    pub railway: Option<DeploymentEvent>,
    pub vercel: Option<DeploymentEvent>,
    /// Group time, milliseconds since the Unix epoch.
    pub timestamp: i64,
    pub is_stale: bool,
}


impl JobSummary {
    /// A copy of the job.
    pub fn duplicate(&self) -> (r: JobSummary)
        ensures
            r == *self,
    {
        JobSummary { name: self.name.clone(), status: self.status.duplicate() }
    }
}

impl JobStepSummary {
    /// A copy of the step.
    pub fn duplicate(&self) -> (r: JobStepSummary)
        ensures
            r == *self,
    {
        JobStepSummary {
            number: self.number,
            name: self.name.clone(),
            status: self.status.duplicate(),
            duration_secs: self.duration_secs,
            started_at: copy_opt(&self.started_at),
            completed_at: copy_opt(&self.completed_at),
        }
    }
}

/// A copy of an optional string.
pub fn copy_opt(o: &Option<String>) -> (r: Option<String>)
    ensures
        r == *o,
{
    match o {
        Some(s) => Some(s.clone()),
        None => None,
    }
}

/// Two jobs hold the same values.
pub open spec fn same_detail(a: JobDetail, b: JobDetail) -> bool {
    &&& a.job_id == b.job_id
    &&& a.name == b.name
    &&& a.status == b.status
    &&& a.html_url == b.html_url
    &&& a.steps@ == b.steps@
}

impl JobDetail {
    /// A copy of the job with its steps.
    pub fn duplicate(&self) -> (r: JobDetail)
        ensures
            same_detail(r, *self),
    {
        let mut steps: Vec<JobStepSummary> = Vec::new();
        let mut i: usize = 0;
        while i < self.steps.len()
            invariant
                i <= self.steps@.len(),
                steps@ == self.steps@.take(i as int),
            decreases self.steps@.len() - i,
        {
            steps.push(self.steps[i].duplicate());
            assert(self.steps@.take(i + 1) =~= self.steps@.take(i as int).push(self.steps@[i as int]));
            i = i + 1;
        }
        assert(self.steps@.take(i as int) =~= self.steps@);
        JobDetail {
            job_id: self.job_id,
            name: self.name.clone(),
            status: self.status.duplicate(),
            html_url: copy_opt(&self.html_url),
            steps,
        }
    }
}

/// Two metadata records hold the same values.
pub open spec fn same_metadata(a: EventMetadata, b: EventMetadata) -> bool {
    &&& a.source_id == b.source_id
    &&& a.workflow_name == b.workflow_name
    &&& a.trigger_event == b.trigger_event
    &&& a.service_name == b.service_name
    &&& a.environment_name == b.environment_name
    &&& a.deploy_target == b.deploy_target
    &&& a.preview_url == b.preview_url
    &&& a.jobs@ == b.jobs@
    &&& a.job_details@.len() == b.job_details@.len()
    &&& forall|i: int| 0 <= i < a.job_details@.len() ==> same_detail(#[trigger] a.job_details@[i], b.job_details@[i])
}

impl EventMetadata {
    /// A copy of the metadata.
    pub fn duplicate(&self) -> (r: EventMetadata)
        ensures
            same_metadata(r, *self),
    {
        let mut jobs: Vec<JobSummary> = Vec::new();
        let mut i: usize = 0;
        while i < self.jobs.len()
            invariant
                i <= self.jobs@.len(),
                jobs@ == self.jobs@.take(i as int),
            decreases self.jobs@.len() - i,
        {
            jobs.push(self.jobs[i].duplicate());
            assert(self.jobs@.take(i + 1) =~= self.jobs@.take(i as int).push(self.jobs@[i as int]));
            i = i + 1;
        }
        assert(self.jobs@.take(i as int) =~= self.jobs@);
        let mut details: Vec<JobDetail> = Vec::new();
        let mut j: usize = 0;
        while j < self.job_details.len()
            invariant
                j <= self.job_details@.len(),
                details@.len() == j,
                forall|k: int| 0 <= k < j ==> same_detail(#[trigger] details@[k], self.job_details@[k]),
            decreases self.job_details@.len() - j,
        {
            details.push(self.job_details[j].duplicate());
            j = j + 1;
        }
        EventMetadata {
            source_id: copy_opt(&self.source_id),
            workflow_name: copy_opt(&self.workflow_name),
            trigger_event: copy_opt(&self.trigger_event),
            service_name: copy_opt(&self.service_name),
            environment_name: copy_opt(&self.environment_name),
            deploy_target: copy_opt(&self.deploy_target),
            preview_url: copy_opt(&self.preview_url),
            jobs,
            job_details: details,
        }
    }
}

/// Two events hold the same values.
pub open spec fn same_event(a: DeploymentEvent, b: DeploymentEvent) -> bool {
    &&& a.id == b.id
    &&& a.platform == b.platform
    &&& a.status == b.status
    &&& a.commit_sha == b.commit_sha
    &&& a.branch == b.branch
    &&& a.title == b.title
    &&& a.actor == b.actor
    &&& a.created_at == b.created_at
    &&& a.updated_at == b.updated_at
    &&& a.duration_secs == b.duration_secs
    &&& a.url == b.url
    &&& same_metadata(a.metadata, b.metadata)
    &&& a.is_from_cache == b.is_from_cache
}

/// Two optional events hold the same values.
pub open spec fn same_event_opt(a: Option<DeploymentEvent>, b: Option<DeploymentEvent>) -> bool {
    match (a, b) {
        (Some(x), Some(y)) => same_event(x, y),
        (None, None) => true,
        _ => false,
    }
}

impl DeploymentEvent {
    /// A copy of the event.
    pub fn duplicate(&self) -> (r: DeploymentEvent)
        ensures
            same_event(r, *self),
    {
        DeploymentEvent {
            id: self.id.clone(),
            platform: self.platform,
            status: self.status.duplicate(),
            commit_sha: copy_opt(&self.commit_sha),
            branch: copy_opt(&self.branch),
            title: copy_opt(&self.title),
            actor: copy_opt(&self.actor),
            created_at: self.created_at,
            updated_at: self.updated_at,
            duration_secs: self.duration_secs,
            url: copy_opt(&self.url),
            metadata: self.metadata.duplicate(),
            is_from_cache: self.is_from_cache,
        }
    }
}

/// A copy of an optional event.
pub fn copy_event_opt(o: &Option<DeploymentEvent>) -> (r: Option<DeploymentEvent>)
    ensures
        same_event_opt(r, *o),
{
    match o {
        Some(e) => Some(e.duplicate()),
        None => None,
    }
}

/// Two groups hold the same values.
pub open spec fn same_group(a: CorrelatedEvent, b: CorrelatedEvent) -> bool {
    &&& a.commit_sha == b.commit_sha
    &&& a.project_name == b.project_name
    &&& same_event_opt(a.github, b.github)
    &&& same_event_opt(a.railway, b.railway)
    &&& same_event_opt(a.vercel, b.vercel)
    &&& a.timestamp == b.timestamp
    &&& a.is_stale == b.is_stale
}

impl CorrelatedEvent {
    /// A copy of the group.
    pub fn duplicate(&self) -> (r: CorrelatedEvent)
        ensures
            same_group(r, *self),
    {
        CorrelatedEvent {
            commit_sha: copy_opt(&self.commit_sha),
            project_name: copy_opt(&self.project_name),
            github: copy_event_opt(&self.github),
            railway: copy_event_opt(&self.railway),
            vercel: copy_event_opt(&self.vercel),
            timestamp: self.timestamp,
            is_stale: self.is_stale,
        }
    }
}

/// Per-provider health scores and weights of one project.
#[derive(Debug, Clone, Copy, PartialEq, Eq, Structural)]
pub struct HealthBreakdown {
    pub total: u8,
    pub github_score: Option<u8>,
    pub railway_score: Option<u8>,
    pub vercel_score: Option<u8>,
    pub github_weight: u8,
    pub railway_weight: u8,
    pub vercel_weight: u8,
}

/// Readiness of a provider's setup.
#[derive(Debug, Clone, Copy, PartialEq, Eq, Structural)]
pub enum PlatformHealthState {
    Ready,
    NoToken,
    InvalidToken,
    ConnectivityError,
    AccessOrConfigIncomplete,
}

impl PlatformHealthState {
    pub open spec fn label_of(self) -> Seq<char> {
        match self {
            PlatformHealthState::Ready => "Ready"@,
            PlatformHealthState::NoToken => "No Token"@,
            PlatformHealthState::InvalidToken => "Invalid Token"@,
            PlatformHealthState::ConnectivityError => "Connectivity Error"@,
            PlatformHealthState::AccessOrConfigIncomplete => "Access/Config Incomplete"@,
        }
    }

    /// The state in words.
    pub fn label(self) -> (r: &'static str)
        ensures
            r@ == self.label_of(),
    {
        match self {
            PlatformHealthState::Ready => "Ready",
            PlatformHealthState::NoToken => "No Token",
            PlatformHealthState::InvalidToken => "Invalid Token",
            PlatformHealthState::ConnectivityError => "Connectivity Error",
            PlatformHealthState::AccessOrConfigIncomplete => "Access/Config Incomplete",
        }
    }

    pub open spec fn icon_of(self) -> Seq<char> {
        match self {
            PlatformHealthState::Ready => "✓"@,
            PlatformHealthState::NoToken => "○"@,
            PlatformHealthState::InvalidToken => "✗"@,
            PlatformHealthState::ConnectivityError => "⚠"@,
            PlatformHealthState::AccessOrConfigIncomplete => "◐"@,
        }
    }

    /// The one-character mark of the state.
    pub fn icon(self) -> (r: &'static str)
        ensures
            r@ == self.icon_of(),
    {
        match self {
            PlatformHealthState::Ready => "✓",
            PlatformHealthState::NoToken => "○",
            PlatformHealthState::InvalidToken => "✗",
            PlatformHealthState::ConnectivityError => "⚠",
            PlatformHealthState::AccessOrConfigIncomplete => "◐",
        }
    }
}

/// What a readiness check found about a provider's account: who the token
/// belongs to, and how many of the configured checks were accessible.
#[derive(Debug)]
pub enum PlatformHealthDetails {
    GitHub {
        identity: Option<String>,
        accessible_repos: u64,
        configured_repo_checks: u64,
        accessible_orgs: u64,
        configured_org_checks: u64,
    },
    Railway {
        identity: Option<String>,
        accessible_workspaces: u64,
        configured_workspace_checks: u64,
        accessible_projects: u64,
        configured_project_checks: u64,
    },
    Vercel {
        identity: Option<String>,
        accessible_teams: u64,
        configured_team_checks: u64,
        accessible_projects: u64,
        configured_project_checks: u64,
    },
    Unknown,
}

/// A provider's readiness report.
#[derive(Debug)]
pub struct PlatformHealthReport {
    pub platform: PlatformKind,
    pub state: PlatformHealthState,
    pub reason: String,
    pub next_action: String,
    /// Where the token came from: an environment variable name, "keyring",
    /// or a CLI's config.
    pub token_source: Option<String>,
    pub details: PlatformHealthDetails,
}

/// A resource found while discovering what an account can reach.
#[derive(Debug)]
pub struct DiscoveredResource {
    pub platform: PlatformKind,
    pub platform_id: String,
    pub display_name: String,
    /// The owner, team or workspace the resource belongs to.
    pub group: String,
    pub archived: bool,
    pub disabled: bool,
}

impl DiscoveredResource {
    /// A copy of the resource.
    pub fn duplicate(&self) -> (r: DiscoveredResource)
        ensures
            r == *self,
    {
        DiscoveredResource {
            platform: self.platform,
            platform_id: self.platform_id.clone(),
            display_name: self.display_name.clone(),
            group: self.group.clone(),
            archived: self.archived,
            disabled: self.disabled,
        }
    }
}

/// The latest uptime probe of a deployed endpoint.
#[derive(Debug)]
pub struct PingResult {
    pub url: String,
    pub is_up: bool,
}

} // verus!
