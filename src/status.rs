//! Account and repository states, status reports of the relay's HTTP API and
//! the health report of the query service.
use vstd::prelude::*;

verus! {

/// Synchronisation state of a repository as reported by the relay.
#[derive(Debug, Clone, Copy, PartialEq, Eq, Hash, Structural)]
#[non_exhaustive]
pub enum RepoState {
    Pending,
    Desynchronized,
    Resyncing,
    Active,
    Takendown,
    Suspended,
    Deactivated,
    Error,
}

/// The lowercase wire name of a repository state.
pub open spec fn repo_state_name(s: RepoState) -> Seq<char> {
    match s {
        RepoState::Pending => "pending"@,
        RepoState::Desynchronized => "desynchronized"@,
        RepoState::Resyncing => "resyncing"@,
        RepoState::Active => "active"@,
        RepoState::Takendown => "takendown"@,
        RepoState::Suspended => "suspended"@,
        RepoState::Deactivated => "deactivated"@,
        RepoState::Error => "error"@,
    }
}

impl RepoState {
    pub fn as_str(&self) -> (r: &'static str)
        ensures
            r@ == repo_state_name(*self),
    {
        match self {
            RepoState::Pending => "pending",
            RepoState::Desynchronized => "desynchronized",
            RepoState::Resyncing => "resyncing",
            RepoState::Active => "active",
            RepoState::Takendown => "takendown",
            RepoState::Suspended => "suspended",
            RepoState::Deactivated => "deactivated",
            RepoState::Error => "error",
        }
    }
}

/// Activity or moderation status carried by an identity event.
#[derive(Debug, Clone, Copy, PartialEq, Eq, Hash, Structural)]
#[non_exhaustive]
pub enum IdentityEventStatus {
    Active,
    Takendown,
    Suspended,
    Deactivated,
    Deleted,
}

/// The lowercase wire name of an identity status.
pub open spec fn identity_status_name(s: IdentityEventStatus) -> Seq<char> {
    match s {
        IdentityEventStatus::Active => "active"@,
        IdentityEventStatus::Takendown => "takendown"@,
        IdentityEventStatus::Suspended => "suspended"@,
        IdentityEventStatus::Deactivated => "deactivated"@,
        IdentityEventStatus::Deleted => "deleted"@,
    }
}

/// Whether an identity status removes the account and its content.
pub open spec fn status_purges(s: IdentityEventStatus) -> bool {
    s == IdentityEventStatus::Deleted || s == IdentityEventStatus::Takendown
}

impl IdentityEventStatus {
    pub fn as_str(&self) -> (r: &'static str)
        ensures
            r@ == identity_status_name(*self),
    {
        match self {
            IdentityEventStatus::Active => "active",
            IdentityEventStatus::Takendown => "takendown",
            IdentityEventStatus::Suspended => "suspended",
            IdentityEventStatus::Deactivated => "deactivated",
            IdentityEventStatus::Deleted => "deleted",
        }
    }

    /// Whether an account with this status is purged from the projection.
    pub fn purges_account(&self) -> (r: bool)
        ensures
            r == status_purges(*self),
    {
        matches!(self, IdentityEventStatus::Deleted | IdentityEventStatus::Takendown)
    }
}

/// Number of repositories the relay tracks.
#[derive(Debug, Clone, Copy, PartialEq, Eq, Hash, Structural)]
#[non_exhaustive]
pub struct RepoCountResponse {
    pub repo_count: u64,
}

/// Number of records the relay tracks.
#[derive(Debug, Clone, Copy, PartialEq, Eq, Hash, Structural)]
#[non_exhaustive]
pub struct RecordCountResponse {
    pub record_count: u64,
}

/// Number of events waiting in the relay's outbox.
#[derive(Debug, Clone, Copy, PartialEq, Eq, Hash, Structural)]
#[non_exhaustive]
pub struct OutboxBufferResponse {
    pub outbox_buffer: u64,
}

/// Number of repositories waiting for a resync.
#[derive(Debug, Clone, Copy, PartialEq, Eq, Hash, Structural)]
#[non_exhaustive]
pub struct ResyncBufferResponse {
    pub resync_buffer: u64,
}

/// The relay's read positions.
#[derive(Debug, Clone, PartialEq, Eq, Hash)]
#[non_exhaustive]
pub struct CursorsResponse {
    pub firehose: Option<u64>,
    pub list_repos: Option<String>,
}

/// Overall health of the query service.
#[derive(Debug, Clone, Copy, PartialEq, Eq, Structural)]
pub enum HealthStatus {
    Healthy,
    Unhealthy,
}

/// Health of the relational store as seen by a probe query.
#[derive(Debug, Clone, Copy, PartialEq, Eq, Structural)]
pub enum DatabaseStatus {
    Healthy,
    Unhealthy,
}

/// Body of the health endpoint.
#[derive(Debug, Clone, Copy, PartialEq, Eq, Structural)]
pub struct HandleHealthResponse {
    pub status: HealthStatus,
    pub database: DatabaseStatus,
}

impl HandleHealthResponse {
    /// The report for a store probe result: the service is healthy exactly
    /// when the store is.
    pub fn from_database(database: DatabaseStatus) -> (r: HandleHealthResponse)
        ensures
            r.database == database,
            (r.status == HealthStatus::Healthy) <==> (database == DatabaseStatus::Healthy),
    {
        let status = match database {
            DatabaseStatus::Healthy => HealthStatus::Healthy,
            DatabaseStatus::Unhealthy => HealthStatus::Unhealthy,
        };
        HandleHealthResponse { status, database }
    }

    /// HTTP status code of the report: 200 when healthy, 503 otherwise.
    pub fn status_code(&self) -> (r: u16)
        ensures
            self.status == HealthStatus::Healthy ==> r == 200,
            self.status == HealthStatus::Unhealthy ==> r == 503,
    {
        match self.status {
            HealthStatus::Healthy => 200,
            HealthStatus::Unhealthy => 503,
        }
    }
}

} // verus!
