//! Patches of a repository's status: the keys a write names, and nothing of
//! the keys it leaves alone.
use crate::conditions::{views, Condition, ConditionView};
use crate::seed::{opt_seed, SeedStatus, SeedStatusView};
use crate::text::opt_text;
use vstd::prelude::*;

verus! {

/// `status.storageStats`, as far as a bootstrap knows it.
#[derive(Clone, Copy, Debug, PartialEq, Eq, Structural)]
pub struct StorageStats {
    pub snapshot_count: Option<i64>,
    pub index_blob_count: Option<i64>,
    pub total_size_bytes: Option<i64>,
}

/// `status.parameters`: what the repository reports, as it was written.
pub struct Parameters {
    pub epoch: Option<String>,
    pub blob_retention: Option<String>,
}

/// `status.health`: the stamp of a probe that was launched (`None` clears it),
/// or a fold of a backend verdict as it was written.
pub enum HealthPatch {
    ProbeAttempt(Option<String>),
    Fold(String),
}

/// `status.catalog`.
pub struct CatalogPatch {
    pub discovered_backup_count: Option<i64>,
    pub foreign_snapshot_count: Option<i64>,
    pub last_refresh_at: Option<String>,
    pub scan_request_honored: Option<String>,
    pub scan_request_attempt_at: Option<String>,
}

/// A patch of a repository's status. An absent field is a key that the patch
/// does not name; `Some(None)` is a key that it clears.
pub struct StatusPatch {
    pub phase: Option<String>,
    pub backend: Option<String>,
    pub observed_generation: Option<Option<i64>>,
    pub unique_id: Option<Option<String>>,
    pub allowed_namespace_count: Option<i64>,
    pub resolved_credential_version: Option<String>,
    pub last_reverify_at: Option<String>,
    pub conditions: Option<Vec<Condition>>,
    pub storage_stats: Option<StorageStats>,
    pub parameters: Option<Parameters>,
    pub health: Option<HealthPatch>,
    pub catalog: Option<CatalogPatch>,
    pub seed: Option<SeedStatus>,
}

/// What [`Parameters`] say, as plain values.
#[verifier::ext_equal]
pub struct ParametersView {
    pub epoch: Option<Seq<char>>,
    pub blob_retention: Option<Seq<char>>,
}

/// What a [`HealthPatch`] says, as plain values.
#[verifier::ext_equal]
pub enum HealthPatchView {
    ProbeAttempt(Option<Seq<char>>),
    Fold(Seq<char>),
}

/// What a [`CatalogPatch`] says, as plain values.
#[verifier::ext_equal]
pub struct CatalogPatchView {
    pub discovered_backup_count: Option<i64>,
    pub foreign_snapshot_count: Option<i64>,
    pub last_refresh_at: Option<Seq<char>>,
    pub scan_request_honored: Option<Seq<char>>,
    pub scan_request_attempt_at: Option<Seq<char>>,
}

/// What a [`StatusPatch`] says, as plain values.
#[verifier::ext_equal]
pub struct StatusPatchView {
    pub phase: Option<Seq<char>>,
    pub backend: Option<Seq<char>>,
    pub observed_generation: Option<Option<i64>>,
    pub unique_id: Option<Option<Seq<char>>>,
    pub allowed_namespace_count: Option<i64>,
    pub resolved_credential_version: Option<Seq<char>>,
    pub last_reverify_at: Option<Seq<char>>,
    pub conditions: Option<Seq<ConditionView>>,
    pub storage_stats: Option<StorageStats>,
    pub parameters: Option<ParametersView>,
    pub health: Option<HealthPatchView>,
    pub catalog: Option<CatalogPatchView>,
    pub seed: Option<SeedStatusView>,
}

impl View for Parameters {
    type V = ParametersView;

    open spec fn view(&self) -> ParametersView {
        ParametersView {
            epoch: opt_text(self.epoch),
            blob_retention: opt_text(self.blob_retention),
        }
    }
}

impl View for HealthPatch {
    type V = HealthPatchView;

    open spec fn view(&self) -> HealthPatchView {
        match *self {
            HealthPatch::ProbeAttempt(at) => HealthPatchView::ProbeAttempt(opt_text(at)),
            HealthPatch::Fold(text) => HealthPatchView::Fold(text@),
        }
    }
}

impl View for CatalogPatch {
    type V = CatalogPatchView;

    open spec fn view(&self) -> CatalogPatchView {
        CatalogPatchView {
            discovered_backup_count: self.discovered_backup_count,
            foreign_snapshot_count: self.foreign_snapshot_count,
            last_refresh_at: opt_text(self.last_refresh_at),
            scan_request_honored: opt_text(self.scan_request_honored),
            scan_request_attempt_at: opt_text(self.scan_request_attempt_at),
        }
    }
}

/// What an optional list of conditions says.
pub open spec fn opt_views(c: Option<Vec<Condition>>) -> Option<Seq<ConditionView>> {
    match c {
        Some(c) => Some(views(c@)),
        None => None,
    }
}

impl View for StatusPatch {
    type V = StatusPatchView;

    open spec fn view(&self) -> StatusPatchView {
        StatusPatchView {
            phase: opt_text(self.phase),
            backend: opt_text(self.backend),
            observed_generation: self.observed_generation,
            unique_id: match self.unique_id {
                Some(id) => Some(opt_text(id)),
                None => None,
            },
            allowed_namespace_count: self.allowed_namespace_count,
            resolved_credential_version: opt_text(self.resolved_credential_version),
            last_reverify_at: opt_text(self.last_reverify_at),
            conditions: opt_views(self.conditions),
            storage_stats: self.storage_stats,
            parameters: match self.parameters {
                Some(p) => Some(p@),
                None => None,
            },
            health: match self.health {
                Some(h) => Some(h@),
                None => None,
            },
            catalog: match self.catalog {
                Some(c) => Some(c@),
                None => None,
            },
            seed: opt_seed(self.seed),
        }
    }
}

/// A patch that names nothing.
pub open spec fn no_patch() -> StatusPatchView {
    StatusPatchView {
        phase: None,
        backend: None,
        observed_generation: None,
        unique_id: None,
        allowed_namespace_count: None,
        resolved_credential_version: None,
        last_reverify_at: None,
        conditions: None,
        storage_stats: None,
        parameters: None,
        health: None,
        catalog: None,
        seed: None,
    }
}

impl StatusPatch {
    /// A patch that names nothing.
    pub fn new() -> (patch: Self)
        ensures
            patch@ == no_patch(),
    {
        StatusPatch {
            phase: None,
            backend: None,
            observed_generation: None,
            unique_id: None,
            allowed_namespace_count: None,
            resolved_credential_version: None,
            last_reverify_at: None,
            conditions: None,
            storage_stats: None,
            parameters: None,
            health: None,
            catalog: None,
            seed: None,
        }
    }
}

/// A patch that names nothing touches no key of the status.
pub proof fn empty_patch_touches_nothing()
    ensures
        ({
            let p = no_patch();
            &&& p.phase is None && p.backend is None && p.observed_generation is None
            &&& p.unique_id is None && p.allowed_namespace_count is None
            &&& p.resolved_credential_version is None && p.last_reverify_at is None
            &&& p.conditions is None && p.storage_stats is None && p.parameters is None
            &&& p.health is None && p.catalog is None && p.seed is None
        }),
{
}

} // verus!
