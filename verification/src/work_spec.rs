//! The work a bootstrap mover is handed for a `ClusterRepository`, and whose
//! lease it may stamp on the repository's maintenance.
use crate::backend::{Backend, RepositoryKind, RepositoryRef};
use crate::seed::copy_opt;
use crate::seed_run::{RepositoryConnect, SeedOpSpec, Throttle};
use crate::text::{opt_str, opt_text, texts};
use vstd::prelude::*;
use vstd::string::StringExecFns;

verus! {

/// The API version that objects are referred to under.
pub const API_VERSION: &'static str = "kopiur.home-operations.com/v1alpha1";

/// Which owners of a repository's maintenance a bootstrap may replace.
#[derive(Clone, Copy, Debug, PartialEq, Eq, Structural)]
pub enum RestampPolicy {
    AnyStale,
    OwnFormatsOnly,
}

/// What names the scope of a repository in a lease: its namespace, or a fixed
/// word for a cluster-scoped one.
pub open spec fn lease_scope(kind: RepositoryKind, namespace: Seq<char>) -> Seq<char> {
    match kind {
        RepositoryKind::Repository => namespace,
        RepositoryKind::ClusterRepository => "clusterrepository"@,
    }
}

/// The owner of a lease that names no cluster.
pub open spec fn plain_owner(
    kind: RepositoryKind,
    namespace: Seq<char>,
    name: Seq<char>,
) -> Seq<char> {
    "kopiur@kopiur-"@ + lease_scope(kind, namespace) + "-"@ + name
}

/// The owner of a lease that names its cluster.
pub open spec fn cluster_owner(
    kind: RepositoryKind,
    namespace: Seq<char>,
    name: Seq<char>,
    cluster: Seq<char>,
) -> Seq<char> {
    "kopiur@kopiur."@ + cluster + "."@ + lease_scope(kind, namespace) + "."@ + name
}

/// Whose lease a bootstrap stamps: the owner, which others it may replace, and
/// under which names the owner was known before.
pub struct OwnerPlan {
    pub owner: Option<String>,
    pub policy: RestampPolicy,
    pub aliases: Vec<String>,
}

/// Whether a plan is the one for these values: none stamps where it is
/// suppressed; without a cluster the plain owner replaces any stale one; with
/// a cluster the qualified owner replaces only its own formats, the plain one
/// among them.
pub open spec fn is_owner_plan(
    plan: OwnerPlan,
    kind: RepositoryKind,
    namespace: Seq<char>,
    name: Seq<char>,
    cluster: Option<Seq<char>>,
    suppressed: bool,
) -> bool {
    if suppressed {
        &&& plan.owner is None
        &&& plan.policy == RestampPolicy::AnyStale
        &&& plan.aliases@.len() == 0
    } else {
        match cluster {
            None => {
                &&& opt_text(plan.owner) == Some(plain_owner(kind, namespace, name))
                &&& plan.policy == RestampPolicy::AnyStale
                &&& plan.aliases@.len() == 0
            },
            Some(c) => {
                &&& opt_text(plan.owner) == Some(cluster_owner(kind, namespace, name, c))
                &&& plan.policy == RestampPolicy::OwnFormatsOnly
                &&& texts(plan.aliases@) == seq![plain_owner(kind, namespace, name)]
            },
        }
    }
}

fn scope_of<'a>(kind: RepositoryKind, namespace: &'a str) -> (scope: &'a str)
    ensures
        scope@ == lease_scope(kind, namespace@),
{
    match kind {
        RepositoryKind::Repository => namespace,
        RepositoryKind::ClusterRepository => "clusterrepository",
    }
}

fn plain_owner_of(kind: RepositoryKind, namespace: &str, name: &str) -> (owner: String)
    ensures
        owner@ == plain_owner(kind, namespace@, name@),
{
    let mut owner = "kopiur@kopiur-".to_owned();
    owner.append(scope_of(kind, namespace));
    owner.append("-");
    owner.append(name);
    owner
}

/// Plans whose lease a bootstrap stamps.
pub fn bootstrap_maintenance_owner_plan(
    kind: RepositoryKind,
    namespace: &str,
    name: &str,
    cluster: Option<&str>,
    suppressed: bool,
) -> (plan: OwnerPlan)
    ensures
        is_owner_plan(plan, kind, namespace@, name@, opt_str(cluster), suppressed),
{
    if suppressed {
        return OwnerPlan { owner: None, policy: RestampPolicy::AnyStale, aliases: Vec::new() };
    }
    match cluster {
        None => OwnerPlan {
            owner: Some(plain_owner_of(kind, namespace, name)),
            policy: RestampPolicy::AnyStale,
            aliases: Vec::new(),
        },
        Some(c) => {
            let mut owner = "kopiur@kopiur.".to_owned();
            owner.append(c);
            owner.append(".");
            owner.append(scope_of(kind, namespace));
            owner.append(".");
            owner.append(name);
            let mut aliases: Vec<String> = Vec::new();
            aliases.push(plain_owner_of(kind, namespace, name));
            proof {
                assert(texts(aliases@) =~= seq![plain_owner(kind, namespace@, name@)]);
            }
            OwnerPlan { owner: Some(owner), policy: RestampPolicy::OwnFormatsOnly, aliases }
        },
    }
}

/// What becomes of snapshots that belong to another cluster.
#[derive(Clone, Copy, Debug, PartialEq, Eq, Structural)]
pub enum ForeignSnapshots {
    Ignore,
    Fallback,
}

/// What a bootstrap is asked to do.
pub struct BootstrapRepositoryOp {
    pub auto_create: bool,
    pub scan_catalog: bool,
    pub probe_only: bool,
    pub create_options: Option<String>,
    pub epoch_parameters: Option<String>,
    pub blob_retention: Option<String>,
    pub maintenance_owner: Option<String>,
    pub catalog_foreign_prefilter_cluster: Option<String>,
    pub restamp_policy: RestampPolicy,
    pub maintenance_owner_aliases: Vec<String>,
    pub read_only: bool,
    pub seed: Option<SeedOpSpec>,
}

/// Who a bootstrap acts as.
pub struct ResolvedIdentity {
    pub username: String,
    pub hostname: String,
    pub source_path: String,
}

/// The object a run belongs to.
pub struct TargetRef {
    pub api_version: String,
    pub kind: String,
    pub name: String,
    pub namespace: String,
}

/// The work a mover is handed. `hook_plan`, `options` and `cache` are settings
/// as JSON text; where one is absent, the mover's default stands: no hooks, no
/// options, kopia's own cache.
pub struct MoverWorkSpec {
    pub version: u32,
    pub operation: BootstrapRepositoryOp,
    pub identity: ResolvedIdentity,
    pub repository: RepositoryConnect,
    pub target_ref: TargetRef,
    pub hook_plan: Option<String>,
    pub options: Option<String>,
    pub cache: Option<String>,
    pub throttle: Throttle,
}

/// What the bootstrap of a `ClusterRepository` is built from.
pub struct BootstrapWork {
    pub name: String,
    pub job_ns: String,
    pub auto_create: bool,
    pub probe_only: bool,
    pub create_options: Option<String>,
    pub throttle: Throttle,
    pub cluster: Option<String>,
    pub foreign: ForeignSnapshots,
    pub read_only: bool,
    pub maintenance_enabled: bool,
    pub foreign_maintenance: bool,
    pub epoch_parameters: Option<String>,
    pub blob_retention: Option<String>,
}

/// The cluster that a repository names itself after, where it names one.
pub open spec fn cluster_identity(cluster: Option<String>) -> Option<Seq<char>> {
    match cluster {
        Some(c) => if c@.len() > 0 {
            Some(c@)
        } else {
            None
        },
        None => None,
    }
}

/// Whether a mover is handed the bootstrap of these values.
pub open spec fn hands_over(
    spec: MoverWorkSpec,
    work: BootstrapWork,
    backend: Backend,
    ca_bundle_pem: Option<String>,
    seed: Option<SeedOpSpec>,
) -> bool {
    &&& spec.version == 1
    &&& spec.operation.auto_create == work.auto_create
    &&& spec.operation.scan_catalog
    &&& spec.operation.probe_only == work.probe_only
    &&& spec.operation.create_options == work.create_options
    &&& spec.operation.epoch_parameters == (if work.read_only {
        None::<String>
    } else {
        work.epoch_parameters
    })
    &&& spec.operation.blob_retention == (if work.read_only {
        None::<String>
    } else {
        work.blob_retention
    })
    &&& opt_text(spec.operation.catalog_foreign_prefilter_cluster) == (if work.foreign
        == ForeignSnapshots::Ignore {
        cluster_identity(work.cluster)
    } else {
        None
    })
    &&& is_owner_plan(
        (OwnerPlan {
            owner: spec.operation.maintenance_owner,
            policy: spec.operation.restamp_policy,
            aliases: spec.operation.maintenance_owner_aliases,
        }),
        RepositoryKind::ClusterRepository,
        work.job_ns@,
        work.name@,
        cluster_identity(work.cluster),
        work.read_only || !work.maintenance_enabled || work.foreign_maintenance,
    )
    &&& spec.operation.read_only == work.read_only
    &&& spec.operation.seed == seed
    &&& spec.identity.username@ == "kopiur-bootstrap"@
    &&& spec.identity.hostname@ == work.name@
    &&& spec.identity.source_path@ == Seq::<char>::empty()
    &&& spec.repository == (RepositoryConnect { backend, ca_bundle_pem })
    &&& spec.target_ref.api_version@ == API_VERSION@
    &&& spec.target_ref.kind@ == "ClusterRepository"@
    &&& spec.target_ref.name@ == work.name@
    &&& spec.target_ref.namespace@ == work.job_ns@
    &&& spec.hook_plan is None
    &&& spec.options is None
    &&& spec.cache is None
    &&& spec.throttle == work.throttle
}

/// Builds the work of a bootstrap. Another cluster's snapshots are dropped
/// early only where the repository names its cluster and ignores them; a
/// read-only repository is handed no parameters; and no lease is stamped on
/// one that is read-only, unmaintained or maintained by somebody else.
pub fn cluster_bootstrap_work_spec(
    work: BootstrapWork,
    backend: Backend,
    ca_bundle_pem: Option<String>,
    seed: Option<SeedOpSpec>,
) -> (spec: MoverWorkSpec)
    ensures
        hands_over(spec, work, backend, ca_bundle_pem, seed),
{
    let named = match &work.cluster {
        Some(c) => if c.as_str().is_empty() {
            None
        } else {
            Some(c.as_str())
        },
        None => None,
    };
    let prefilter = match work.foreign {
        ForeignSnapshots::Ignore => match named {
            Some(c) => Some(c.to_owned()),
            None => None,
        },
        ForeignSnapshots::Fallback => None,
    };
    let plan = bootstrap_maintenance_owner_plan(
        RepositoryKind::ClusterRepository,
        work.job_ns.as_str(),
        work.name.as_str(),
        named,
        work.read_only || !work.maintenance_enabled || work.foreign_maintenance,
    );
    let (epoch_parameters, blob_retention) = if work.read_only {
        (None, None)
    } else {
        (copy_opt(&work.epoch_parameters), copy_opt(&work.blob_retention))
    };
    MoverWorkSpec {
        version: 1,
        operation: BootstrapRepositoryOp {
            auto_create: work.auto_create,
            scan_catalog: true,
            probe_only: work.probe_only,
            create_options: copy_opt(&work.create_options),
            epoch_parameters,
            blob_retention,
            maintenance_owner: plan.owner,
            catalog_foreign_prefilter_cluster: prefilter,
            restamp_policy: plan.policy,
            maintenance_owner_aliases: plan.aliases,
            read_only: work.read_only,
            seed,
        },
        identity: ResolvedIdentity {
            username: "kopiur-bootstrap".to_owned(),
            hostname: work.name.clone(),
            source_path: String::new(),
        },
        repository: RepositoryConnect { backend, ca_bundle_pem },
        target_ref: TargetRef {
            api_version: API_VERSION.to_owned(),
            kind: "ClusterRepository".to_owned(),
            name: work.name.clone(),
            namespace: work.job_ns.clone(),
        },
        hook_plan: None,
        options: None,
        cache: None,
        throttle: work.throttle,
    }
}

/// How consumers refer to a cluster-scoped repository.
pub fn cluster_repository_ref(name: &str) -> (r: RepositoryRef)
    ensures
        r.kind == RepositoryKind::ClusterRepository,
        r.name@ == name@,
        r.namespace is None,
{
    RepositoryRef {
        kind: RepositoryKind::ClusterRepository,
        name: name.to_owned(),
        namespace: None,
    }
}

/// The leases of two clusters that share a repository never meet: different
/// clusters, neither of which has a dot in its name, own under different
/// names.
pub proof fn clusters_own_apart(
    kind: RepositoryKind,
    namespace: Seq<char>,
    name: Seq<char>,
    one: Seq<char>,
    other: Seq<char>,
)
    requires
        one != other,
        !one.contains('.'),
        !other.contains('.'),
    ensures
        cluster_owner(kind, namespace, name, one) != cluster_owner(kind, namespace, name, other),
{
    reveal_strlit("kopiur@kopiur.");
    reveal_strlit(".");
    let a = cluster_owner(kind, namespace, name, one);
    let b = cluster_owner(kind, namespace, name, other);
    let k = "kopiur@kopiur."@.len() as int;
    if a == b {
        if one.len() < other.len() {
            assert(a[k + one.len()] == '.');
            assert(b[k + one.len()] == other[one.len() as int]);
            assert(other.contains(other[one.len() as int]));
        } else if other.len() < one.len() {
            assert(b[k + other.len()] == '.');
            assert(a[k + other.len()] == one[other.len() as int]);
            assert(one.contains(one[other.len() as int]));
        } else {
            assert forall|j: int| 0 <= j < one.len() implies one[j] == other[j] by {
                assert(a[k + j] == one[j]);
                assert(b[k + j] == other[j]);
            }
            assert(one =~= other);
        }
    }
}

/// A lease that names a cluster is never the lease of an install that names
/// none.
pub proof fn qualified_owner_is_not_the_plain_one(
    kind: RepositoryKind,
    namespace: Seq<char>,
    name: Seq<char>,
    cluster: Seq<char>,
    other_kind: RepositoryKind,
    other_namespace: Seq<char>,
    other_name: Seq<char>,
)
    ensures
        cluster_owner(kind, namespace, name, cluster) != plain_owner(
            other_kind,
            other_namespace,
            other_name,
        ),
{
    reveal_strlit("kopiur@kopiur.");
    reveal_strlit("kopiur@kopiur-");
    let a = cluster_owner(kind, namespace, name, cluster);
    let b = plain_owner(other_kind, other_namespace, other_name);
    assert(a[13] == '.');
    assert(b[13] == '-');
}

/// A lease is stamped exactly where it is not suppressed. An install that names
/// its cluster stamps under that name, replaces only what it once stamped
/// itself, and knows its plain name as an alias; one that names none stamps the
/// plain name over any stale one.
pub proof fn lease_is_stamped_unless_suppressed(
    plan: OwnerPlan,
    kind: RepositoryKind,
    namespace: Seq<char>,
    name: Seq<char>,
    cluster: Option<Seq<char>>,
    suppressed: bool,
)
    requires
        is_owner_plan(plan, kind, namespace, name, cluster, suppressed),
    ensures
        ({
            let scope = match kind {
                RepositoryKind::Repository => namespace,
                RepositoryKind::ClusterRepository => "clusterrepository"@,
            };
            let plain = "kopiur@kopiur-"@ + scope + "-"@ + name;
            let qualified = "kopiur@kopiur."@ + cluster->0 + "."@ + scope + "."@ + name;
            &&& plan.owner is None <==> suppressed
            &&& !suppressed && cluster is None ==> plan.owner->0@ == plain
            &&& !suppressed && cluster is Some ==> plan.owner->0@ == qualified
            &&& plan.policy == RestampPolicy::OwnFormatsOnly <==> !suppressed && cluster is Some
            &&& plan.aliases@.len() == (if !suppressed && cluster is Some {
                1int
            } else {
                0
            })
            &&& !suppressed && cluster is Some ==> plan.aliases@[0]@ == plain
        }),
{
    if !suppressed && cluster is Some {
        let plain = plain_owner(kind, namespace, name);
        assert(texts(plan.aliases@)[0] == plain);
        assert(texts(plan.aliases@).len() == plan.aliases@.len());
    }
}

/// A bootstrap stamps no lease on a repository that is read-only, unmaintained
/// or maintained by somebody else, and hands a read-only one no parameters.
pub proof fn bootstrap_keeps_its_hands_off(
    spec: MoverWorkSpec,
    work: BootstrapWork,
    backend: Backend,
    ca_bundle_pem: Option<String>,
    seed: Option<SeedOpSpec>,
)
    requires
        hands_over(spec, work, backend, ca_bundle_pem, seed),
    ensures
        ({
            let op = spec.operation;
            let named = work.cluster is Some && work.cluster->0@.len() > 0;
            let drops = work.foreign == ForeignSnapshots::Ignore && named;
            &&& op.maintenance_owner is None <==> work.read_only || !work.maintenance_enabled
                || work.foreign_maintenance
            &&& op.maintenance_owner is Some && !named ==> op.maintenance_owner->0@
                == "kopiur@kopiur-"@ + "clusterrepository"@ + "-"@ + work.name@
            &&& op.maintenance_owner is Some && named ==> op.maintenance_owner->0@
                == "kopiur@kopiur."@ + work.cluster->0@ + "."@ + "clusterrepository"@ + "."@
                + work.name@
            &&& work.read_only ==> op.epoch_parameters is None && op.blob_retention is None
            &&& !work.read_only ==> op.epoch_parameters == work.epoch_parameters
                && op.blob_retention == work.blob_retention
            &&& op.read_only == work.read_only
            &&& op.catalog_foreign_prefilter_cluster is Some <==> drops
            &&& drops ==> op.catalog_foreign_prefilter_cluster->0@ == work.cluster->0@
        }),
{
}

/// A bootstrap does what it was asked: it creates only where that is allowed,
/// probes only where it is a probe, seeds where a seed rides along, and always
/// lists the catalog; it connects to its own backend, at its own caps, as a
/// fixed user, and belongs to its repository.
pub proof fn bootstrap_does_what_it_was_asked(
    spec: MoverWorkSpec,
    work: BootstrapWork,
    backend: Backend,
    ca_bundle_pem: Option<String>,
    seed: Option<SeedOpSpec>,
)
    requires
        hands_over(spec, work, backend, ca_bundle_pem, seed),
    ensures
        spec.operation.auto_create == work.auto_create,
        spec.operation.probe_only == work.probe_only,
        spec.operation.create_options == work.create_options,
        spec.operation.scan_catalog,
        spec.operation.seed == seed,
        spec.repository.backend == backend,
        spec.repository.ca_bundle_pem == ca_bundle_pem,
        spec.throttle == work.throttle,
        spec.version == 1,
        spec.identity.username@ == "kopiur-bootstrap"@,
        spec.identity.hostname@ == work.name@,
        spec.identity.source_path@.len() == 0,
        spec.target_ref.api_version@ == API_VERSION@,
        spec.target_ref.kind@ == "ClusterRepository"@,
        spec.target_ref.name@ == work.name@,
        spec.target_ref.namespace@ == work.job_ns@,
        spec.hook_plan is None && spec.options is None && spec.cache is None,
{
}

} // verus!
