//! The records of the platform: roles, statuses, and the values that create
//! organizations, users, teams, apps, secrets, releases, deploys and builds.
use vstd::prelude::*;

verus! {

/// A member's role in an organization.
#[derive(Debug, Clone, Copy, PartialEq, Eq, Structural)]
pub enum OrgRole {
    Owner,
    Admin,
    Member,
    Billing,
}

/// A member's role in a team.
#[derive(Debug, Clone, Copy, PartialEq, Eq, Structural)]
pub enum TeamRole {
    Member,
    Maintainer,
    Lead,
}

/// A member's role in an app.
#[derive(Debug, Clone, Copy, PartialEq, Eq, Structural)]
pub enum AppRole {
    Owner,
    Maintainer,
    Deployer,
    Viewer,
}

#[derive(Debug, Clone, Copy, PartialEq, Eq, Structural)]
pub enum ReleaseStatus {
    Pending,
    Built,
    Failed,
}

#[derive(Debug, Clone, Copy, PartialEq, Eq, Structural)]
pub enum DeployStatus {
    Pending,
    Running,
    Succeeded,
    Failed,
    Canceled,
}

#[derive(Debug, Clone, Copy, PartialEq, Eq, Structural)]
pub enum BuildStatus {
    Pending,
    Running,
    Succeeded,
    Failed,
    Canceled,
}

/// What started a build.
#[derive(Debug, Clone, Copy, PartialEq, Eq, Structural)]
pub enum BuildTrigger {
    Manual,
    GitPush,
    Api,
}

#[derive(Debug, Clone)]
pub struct NewOrganization {
    pub name: String,
    pub slug: String,
    pub description: Option<String>,
}

#[derive(Debug, Clone)]
pub struct NewUser {
    pub name: String,
    pub email: String,
    pub password_hash: String,
}

#[derive(Debug, Clone)]
pub struct NewTeam {
    pub organization_id: i64,
    pub name: String,
    pub slug: String,
    pub description: Option<String>,
}

#[derive(Debug, Clone)]
pub struct NewApp {
    pub organization_id: i64,
    pub team_id: Option<i64>,
    pub name: String,
    pub slug: String,
    pub repo_url: Option<String>,
    pub created_by: Option<i64>,
}

#[derive(Debug, Clone)]
pub struct NewAppSecret {
    pub app_id: i64,
    pub environment: String,
    pub key: String,
    pub value: String,
    pub created_by: Option<i64>,
}

#[derive(Debug, Clone)]
pub struct NewRelease {
    pub app_id: i64,
    pub version: String,
    pub commit_sha: Option<String>,
    pub branch: Option<String>,
    pub tag: Option<String>,
    pub image_ref: Option<String>,
    pub created_by: Option<i64>,
    pub changelog: Option<String>,
}

#[derive(Debug, Clone)]
pub struct NewDeploy {
    pub app_id: i64,
    pub release_id: i64,
    pub environment: String,
    pub status: DeployStatus,
    pub triggered_by: Option<i64>,
    pub target_cluster: Option<String>,
    pub target_region: Option<String>,
    pub pipeline_url: Option<String>,
    pub logs_url: Option<String>,
    pub error_message: Option<String>,
}

#[derive(Debug, Clone)]
pub struct NewBuildJob {
    pub app_id: i64,
    pub release_id: Option<i64>,
    pub trigger: BuildTrigger,
    pub triggered_by: Option<i64>,
    pub commit_sha: Option<String>,
    pub branch: Option<String>,
    pub tag: Option<String>,
    pub image_ref: Option<String>,
    pub runner_name: Option<String>,
    pub runner_type: Option<String>,
    pub logs_url: Option<String>,
    pub pipeline_url: Option<String>,
    pub error_message: Option<String>,
}

#[derive(Debug, Clone)]
pub struct NewBuildStep {
    pub build_id: i64,
    pub position: i32,
    pub name: String,
    pub status: BuildStatus,
    pub logs_url: Option<String>,
    pub error_message: Option<String>,
}

#[derive(Debug, Clone)]
pub struct NewBuildLog {
    pub build_id: i64,
    pub step_id: Option<i64>,
    pub chunk_index: i32,
    pub content: String,
}

/// An instant, as the database stores it: seconds since the Unix epoch, in
/// UTC, and the nanoseconds within that second.
#[derive(Debug, Clone, Copy, PartialEq, Eq, Structural)]
pub struct Timestamp {
    pub unix_seconds: i64,
    pub nanosecond: u32,
}

impl Timestamp {
    /// The nanoseconds stay within one second.
    pub open spec fn wf(&self) -> bool {
        self.nanosecond < 1_000_000_000
    }
}

#[derive(Debug, Clone)]
pub struct Organization {
    pub id: i64,
    pub name: String,
    pub slug: String,
    pub description: Option<String>,
    pub created_at: Timestamp,
    pub updated_at: Timestamp,
    pub deleted_at: Option<Timestamp>,
}

#[derive(Debug, Clone)]
pub struct User {
    pub id: i64,
    pub name: String,
    pub email: String,
    pub password_hash: String,
    pub is_active: bool,
    pub created_at: Timestamp,
    pub updated_at: Timestamp,
    pub last_login_at: Option<Timestamp>,
    pub deleted_at: Option<Timestamp>,
}

#[derive(Debug, Clone)]
pub struct OrganizationMembership {
    pub organization_id: i64,
    pub user_id: i64,
    pub role: OrgRole,
    pub created_at: Timestamp,
}

#[derive(Debug, Clone)]
pub struct Team {
    pub id: i64,
    pub organization_id: i64,
    pub name: String,
    pub slug: String,
    pub description: Option<String>,
    pub created_at: Timestamp,
    pub updated_at: Timestamp,
    pub deleted_at: Option<Timestamp>,
}

#[derive(Debug, Clone)]
pub struct TeamMembership {
    pub team_id: i64,
    pub user_id: i64,
    pub role: TeamRole,
    pub created_at: Timestamp,
}

#[derive(Debug, Clone)]
pub struct App {
    pub id: i64,
    pub organization_id: i64,
    pub team_id: Option<i64>,
    pub name: String,
    pub slug: String,
    pub repo_url: Option<String>,
    pub created_by: Option<i64>,
    pub created_at: Timestamp,
    pub updated_at: Timestamp,
    pub deleted_at: Option<Timestamp>,
}

#[derive(Debug, Clone)]
pub struct AppMembership {
    pub app_id: i64,
    pub user_id: i64,
    pub role: AppRole,
    pub created_at: Timestamp,
}

#[derive(Debug, Clone)]
pub struct AppSecret {
    pub id: i64,
    pub app_id: i64,
    pub environment: String,
    pub key: String,
    pub value: String,
    pub created_by: Option<i64>,
    pub created_at: Timestamp,
    pub updated_at: Timestamp,
}

#[derive(Debug, Clone)]
pub struct Release {
    pub id: i64,
    pub app_id: i64,
    pub version: String,
    pub commit_sha: Option<String>,
    pub branch: Option<String>,
    pub tag: Option<String>,
    pub image_ref: Option<String>,
    pub status: ReleaseStatus,
    pub created_by: Option<i64>,
    pub created_at: Timestamp,
    pub updated_at: Timestamp,
    pub changelog: Option<String>,
}

#[derive(Debug, Clone)]
pub struct Deploy {
    pub id: i64,
    pub app_id: i64,
    pub release_id: i64,
    pub environment: String,
    pub status: DeployStatus,
    pub triggered_by: Option<i64>,
    pub target_cluster: Option<String>,
    pub target_region: Option<String>,
    pub created_at: Timestamp,
    pub started_at: Option<Timestamp>,
    pub finished_at: Option<Timestamp>,
    pub pipeline_url: Option<String>,
    pub logs_url: Option<String>,
    pub error_message: Option<String>,
}

#[derive(Debug, Clone)]
pub struct BuildJob {
    pub id: i64,
    pub app_id: i64,
    pub release_id: Option<i64>,
    pub status: BuildStatus,
    pub trigger: BuildTrigger,
    pub triggered_by: Option<i64>,
    pub commit_sha: Option<String>,
    pub branch: Option<String>,
    pub tag: Option<String>,
    pub image_ref: Option<String>,
    pub runner_name: Option<String>,
    pub runner_type: Option<String>,
    pub created_at: Timestamp,
    pub started_at: Option<Timestamp>,
    pub finished_at: Option<Timestamp>,
    pub logs_url: Option<String>,
    pub pipeline_url: Option<String>,
    pub error_message: Option<String>,
}

#[derive(Debug, Clone)]
pub struct BuildStep {
    pub id: i64,
    pub build_id: i64,
    pub position: i32,
    pub name: String,
    pub status: BuildStatus,
    pub created_at: Timestamp,
    pub started_at: Option<Timestamp>,
    pub finished_at: Option<Timestamp>,
    pub logs_url: Option<String>,
    pub error_message: Option<String>,
}

#[derive(Debug, Clone)]
pub struct BuildLog {
    pub id: i64,
    pub build_id: i64,
    pub step_id: Option<i64>,
    pub chunk_index: i32,
    pub content: String,
    pub created_at: Timestamp,
}

} // verus!
