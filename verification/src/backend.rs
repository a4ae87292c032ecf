//! Storage backends and references to repositories, as far as the controller
//! decides by them.
use crate::seed::copy_opt;
use vstd::prelude::*;

verus! {

/// The clouds whose identity federation a backend can use.
#[derive(Clone, Copy, Debug, PartialEq, Eq, Structural)]
pub enum WorkloadIdentityCloud {
    S3,
    Azure,
    Gcs,
}

/// A backend's federated identity.
pub struct WorkloadIdentity {
    pub service_account_name: String,
    pub cloud: WorkloadIdentityCloud,
}

/// A reference to a Secret.
pub struct SecretRef {
    pub name: String,
    pub namespace: Option<String>,
}

/// A storage backend: its kind, how it authenticates, where a filesystem
/// backend lives and which volume it mounts, and its settings as they stand.
pub struct Backend {
    pub kind: String,
    pub workload_identity: Option<WorkloadIdentity>,
    pub auth_secret: Option<SecretRef>,
    pub path: Option<String>,
    pub volume: Option<String>,
    pub settings: String,
}

impl Clone for WorkloadIdentity {
    fn clone(&self) -> (copy: Self)
        ensures
            copy == *self,
    {
        WorkloadIdentity {
            service_account_name: self.service_account_name.clone(),
            cloud: self.cloud,
        }
    }
}

impl Clone for SecretRef {
    fn clone(&self) -> (copy: Self)
        ensures
            copy == *self,
    {
        SecretRef { name: self.name.clone(), namespace: copy_opt(&self.namespace) }
    }
}

impl Clone for Backend {
    fn clone(&self) -> (copy: Self)
        ensures
            copy == *self,
    {
        let workload_identity = match &self.workload_identity {
            Some(w) => Some(w.clone()),
            None => None,
        };
        let auth_secret = match &self.auth_secret {
            Some(s) => Some(s.clone()),
            None => None,
        };
        Backend {
            kind: self.kind.clone(),
            workload_identity,
            auth_secret,
            path: copy_opt(&self.path),
            volume: copy_opt(&self.volume),
            settings: self.settings.clone(),
        }
    }
}

/// The two kinds of repository objects.
#[derive(Clone, Copy, Debug, PartialEq, Eq, Structural)]
pub enum RepositoryKind {
    Repository,
    ClusterRepository,
}

/// The word a repository kind is written as.
pub open spec fn kind_word(kind: RepositoryKind) -> Seq<char> {
    match kind {
        RepositoryKind::Repository => "Repository"@,
        RepositoryKind::ClusterRepository => "ClusterRepository"@,
    }
}

/// The word a repository kind is written as.
pub fn repo_kind_str(kind: RepositoryKind) -> (word: &'static str)
    ensures
        word@ == kind_word(kind),
{
    match kind {
        RepositoryKind::Repository => "Repository",
        RepositoryKind::ClusterRepository => "ClusterRepository",
    }
}

/// A reference to a repository object.
pub struct RepositoryRef {
    pub kind: RepositoryKind,
    pub name: String,
    pub namespace: Option<String>,
}

/// The two kinds of repository objects are written as their own names.
pub proof fn kinds_are_told_apart(kind: RepositoryKind)
    ensures
        kind_word(kind) == "Repository"@ <==> kind == RepositoryKind::Repository,
        kind_word(kind) == "ClusterRepository"@ <==> kind == RepositoryKind::ClusterRepository,
{
    reveal_strlit("Repository");
    reveal_strlit("ClusterRepository");
    assert("Repository"@.len() == 10 && "ClusterRepository"@.len() == 17);
}

} // verus!
