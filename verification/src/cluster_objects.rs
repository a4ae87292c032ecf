//! What a `ClusterRepository` says of its catalog, its web server and its
//! maintenance.
use crate::backend::RepositoryKind;
use crate::cluster_reconcile::cluster_maintenance_placement;
use crate::labels::Labels;
use crate::seed::copy_opt;
use crate::text::opt_text;
use vstd::prelude::*;

verus! {

/// The annotation that asks for a scan of the catalog.
pub const CATALOG_SCAN_REQUESTED_ANNOTATION: &'static str = "kopiur.home-operations.com/catalog-scan-requested-at";

/// The annotation that acknowledges a mass deletion. Assumed to be the key that
/// the custom resources' API gives it; nothing here can tell.
pub const ALLOW_MASS_DELETION_ANNOTATION: &'static str = "kopiur.home-operations.com/allow-mass-deletion";

/// What the status says of the catalog.
pub struct CatalogStatus {
    pub last_refresh_at: Option<String>,
    pub scan_request_honored: Option<String>,
    pub scan_request_attempt_at: Option<String>,
    pub discovered_backup_count: Option<i64>,
    pub foreign_snapshot_count: Option<i64>,
}

/// When the catalog was last refreshed.
pub fn cluster_last_refresh_at(catalog: &Option<CatalogStatus>) -> (at: Option<String>)
    ensures
        at == (match *catalog {
            Some(c) => c.last_refresh_at,
            None => None,
        }),
{
    match catalog {
        Some(c) => copy_opt(&c.last_refresh_at),
        None => None,
    }
}

/// The request for a scan that was last honoured.
pub fn cluster_scan_requested_honored(catalog: &Option<CatalogStatus>) -> (token: Option<String>)
    ensures
        token == (match *catalog {
            Some(c) => c.scan_request_honored,
            None => None,
        }),
{
    match catalog {
        Some(c) => copy_opt(&c.scan_request_honored),
        None => None,
    }
}

/// When a requested scan was last attempted.
pub fn cluster_scan_requested_attempt_at(catalog: &Option<CatalogStatus>) -> (at: Option<String>)
    ensures
        at == (match *catalog {
            Some(c) => c.scan_request_attempt_at,
            None => None,
        }),
{
    match catalog {
        Some(c) => copy_opt(&c.scan_request_attempt_at),
        None => None,
    }
}

/// The value of an annotation.
pub open spec fn annotation(annotations: Labels, key: Seq<char>) -> Option<Seq<char>> {
    if annotations@.dom().contains(key) {
        Some(annotations@[key])
    } else {
        None
    }
}

/// The request for a scan that stands on the object.
pub fn cluster_scan_requested_token(annotations: &Labels) -> (token: Option<String>)
    requires
        annotations.wf(),
    ensures
        opt_text(token) == annotation(*annotations, CATALOG_SCAN_REQUESTED_ANNOTATION@),
{
    annotations.get(CATALOG_SCAN_REQUESTED_ANNOTATION)
}

/// The acknowledgement of a mass deletion that stands on the object.
pub fn mass_deletion_ack_raw(annotations: &Labels) -> (ack: Option<String>)
    requires
        annotations.wf(),
    ensures
        opt_text(ack) == annotation(*annotations, ALLOW_MASS_DELETION_ANNOTATION@),
{
    annotations.get(ALLOW_MASS_DELETION_ANNOTATION)
}

/// The figures of a catalog to publish.
#[derive(Clone, Copy, Debug, PartialEq, Eq, Structural)]
pub struct CatalogGauges {
    pub snapshots: Option<i64>,
    pub discovered: Option<i64>,
    pub foreign: Option<i64>,
}

/// Decides what to publish after a reconcile: nothing for an object that is
/// being deleted, after a failure, or where no figure is known.
pub fn record_cluster_repository_status_metrics(
    deleting: bool,
    ok: bool,
    snapshot_count: Option<i64>,
    catalog: &Option<CatalogStatus>,
) -> (gauges: Option<CatalogGauges>)
    ensures
        ({
            let all = CatalogGauges {
                snapshots: snapshot_count,
                discovered: match *catalog {
                    Some(c) => c.discovered_backup_count,
                    None => None,
                },
                foreign: match *catalog {
                    Some(c) => c.foreign_snapshot_count,
                    None => None,
                },
            };
            gauges == (if !deleting && ok && (all.snapshots is Some || all.discovered is Some
                || all.foreign is Some) {
                Some(all)
            } else {
                None
            })
        }),
{
    if deleting || !ok {
        return None;
    }
    let (discovered, foreign) = match catalog {
        Some(c) => (c.discovered_backup_count, c.foreign_snapshot_count),
        None => (None, None),
    };
    if snapshot_count.is_some() || discovered.is_some() || foreign.is_some() {
        Some(CatalogGauges { snapshots: snapshot_count, discovered, foreign })
    } else {
        None
    }
}

/// What a managed `Maintenance` is projected from.
pub struct MaintenanceProjection {
    pub kind: RepositoryKind,
    pub repository: String,
    pub placement: Option<String>,
    pub cluster: Option<String>,
}

/// Decides what a managed `Maintenance` is projected from. A repository that
/// takes no writes has none.
pub fn ensure_cluster_maintenance(
    allows_writes: bool,
    name: &str,
    maintenance_namespace: &Option<String>,
    operator_namespace: &Option<String>,
    cluster: &Option<String>,
) -> (projection: Option<MaintenanceProjection>)
    ensures
        projection is Some <==> allows_writes,
        projection is Some ==> {
            &&& projection->0.kind == RepositoryKind::ClusterRepository
            &&& projection->0.repository@ == name@
            &&& opt_text(projection->0.placement) == (if *maintenance_namespace is Some {
                opt_text(*maintenance_namespace)
            } else {
                opt_text(*operator_namespace)
            })
            &&& projection->0.cluster == *cluster
        },
{
    if !allows_writes {
        return None;
    }
    Some(
        MaintenanceProjection {
            kind: RepositoryKind::ClusterRepository,
            repository: name.to_owned(),
            placement: cluster_maintenance_placement(maintenance_namespace, operator_namespace),
            cluster: copy_opt(cluster),
        },
    )
}

/// The label that names the `ClusterRepository` of an object.
pub const CLUSTER_REPOSITORY_LABEL: &'static str = "kopiur.home-operations.com/cluster-repository";

/// The label that holds the UID of the `ClusterRepository` of an object.
pub const CLUSTER_REPOSITORY_UID_LABEL: &'static str = "kopiur.home-operations.com/cluster-repository-uid";

/// Where a web server runs, and how its objects are marked. A cluster-scoped
/// object cannot own them, so that labels lead back to it.
pub struct ServerPlan {
    pub instance: String,
    pub read_only_mode: bool,
    pub target_namespace: Option<String>,
    pub observed_namespace: Option<String>,
    pub labels: Labels,
    pub operator_namespace: Option<String>,
}

/// Plans the web server of a repository.
pub fn reconcile_cluster_server(
    name: &str,
    uid: &Option<String>,
    server_namespace: &Option<String>,
    observed_namespace: &Option<String>,
    allows_writes: bool,
    operator_namespace: &Option<String>,
) -> (plan: ServerPlan)
    ensures
        plan.instance@ == name@,
        plan.read_only_mode == !allows_writes,
        plan.target_namespace == *server_namespace,
        plan.observed_namespace == *observed_namespace,
        plan.labels.wf(),
        plan.labels@ == Map::<Seq<char>, Seq<char>>::empty().insert(
            CLUSTER_REPOSITORY_LABEL@,
            name@,
        ).insert(
            CLUSTER_REPOSITORY_UID_LABEL@,
            match *uid {
                Some(u) => u@,
                None => ""@,
            },
        ),
        plan.operator_namespace == *operator_namespace,
{
    let mut labels = Labels::new();
    labels.insert(CLUSTER_REPOSITORY_LABEL, name);
    let uid_text = match uid {
        Some(u) => u.as_str(),
        None => "",
    };
    labels.insert(CLUSTER_REPOSITORY_UID_LABEL, uid_text);
    ServerPlan {
        instance: name.to_owned(),
        read_only_mode: !allows_writes,
        target_namespace: copy_opt(server_namespace),
        observed_namespace: copy_opt(observed_namespace),
        labels,
        operator_namespace: copy_opt(operator_namespace),
    }
}

/// An annotation is read as it stands on the object, and a missing one as none.
pub proof fn annotation_is_read_as_it_stands(annotations: Labels, key: Seq<char>)
    ensures
        annotation(annotations, key) is Some <==> annotations@.contains_key(key),
        annotation(annotations, key) is Some ==> annotation(annotations, key)->0
            == annotations@[key],
{
}

} // verus!
