//! The Job that bootstraps a `ClusterRepository`: what its mover is handed,
//! which Secrets and volumes it carries, how it is marked and limited.
use crate::backend::Backend;
use crate::cluster_objects::CLUSTER_REPOSITORY_LABEL;
use crate::labels::Labels;
use crate::rbac::{MoverRunIdentity, AZURE_WORKLOAD_IDENTITY_LABEL};
use crate::seed::copy_opt;
use crate::seed_run::{
    bootstrap_limits, loads_plainly, mounts_own, plain_creds, repository_volume, seed_deadline,
    seed_job_limits,
    ArmedSeed, CredsEnvFrom, FailurePolicy, JobLimits, SecretEnv, SeedOpSpec, SeedSpec,
    VolumeMountSpec,
};
use crate::text::{decimal, render_i64, same_text, texts};
use crate::work_spec::{cluster_bootstrap_work_spec, hands_over, BootstrapWork, MoverWorkSpec};
use vstd::prelude::*;

verus! {

/// The annotation that records the generation that a Job was launched for.
pub const BOOTSTRAP_GENERATION_ANNOTATION: &'static str = "kopiur.home-operations.com/bootstrap-generation";

/// The Secrets of a repository: the one that holds its password, and the one
/// that its backend authenticates with, where that is another.
pub open spec fn secret_names(backend: Backend, password_secret: Seq<char>) -> Seq<Seq<char>> {
    if backend.auth_secret is Some && backend.auth_secret->0.name@ != password_secret {
        seq![password_secret, backend.auth_secret->0.name@]
    } else {
        seq![password_secret]
    }
}

/// The Secrets that a mover loads for a repository, the password's first and
/// none of them twice.
pub fn mover_creds_secrets(backend: &Backend, password_secret: &str) -> (names: Vec<String>)
    ensures
        texts(names@) == secret_names(*backend, password_secret@),
{
    let mut names: Vec<String> = Vec::new();
    names.push(password_secret.to_owned());
    if let Some(secret) = &backend.auth_secret {
        if !same_text(secret.name.as_str(), password_secret) {
            names.push(secret.name.clone());
        }
    }
    proof {
        assert(texts(names@) =~= secret_names(*backend, password_secret@));
    }
    names
}

/// The backends that a bootstrap touches from one pod: its own, and that of
/// the seed's source.
pub open spec fn touched_backends(backend: Backend, seed: Option<ArmedSeed>) -> Seq<Backend> {
    match seed {
        Some(s) => seq![backend, s.source_backend],
        None => seq![backend],
    }
}

/// The backends that a bootstrap touches from one pod, for its run identity.
pub fn identity_backends(backend: &Backend, seed: &Option<ArmedSeed>) -> (backends: Vec<Backend>)
    ensures
        backends@ == touched_backends(*backend, *seed),
{
    let mut backends: Vec<Backend> = Vec::new();
    backends.push(backend.clone());
    if let Some(s) = seed {
        backends.push(s.source_backend.clone());
    }
    proof {
        assert(backends@ =~= touched_backends(*backend, *seed));
    }
    backends
}

/// The limits of a bootstrap Job that carries no seed.
pub open spec fn unseeded_limits(
    deadline_secs: i64,
    policy: Option<FailurePolicy>,
    default_backoff: i32,
    ttl: Option<i64>,
) -> JobLimits {
    JobLimits {
        active_deadline_seconds: Some(deadline_secs),
        backoff_limit: match policy {
            Some(p) => match p.backoff_limit {
                Some(n) => n,
                None => default_backoff,
            },
            None => default_backoff,
        },
        ttl_seconds_after_finished: ttl,
    }
}

/// What the limits and the marks of a bootstrap Job are decided by.
pub struct BootstrapJobSettings {
    pub seed: Option<SeedSpec>,
    pub seed_armed: bool,
    /// The deadline after escalation.
    pub deadline_secs: i64,
    pub failure_policy: Option<FailurePolicy>,
    pub default_backoff: i32,
    pub ttl: Option<i64>,
    /// The generation that the Job is launched for.
    pub generation: Option<i64>,
}

/// The limits of a bootstrap Job.
pub open spec fn limits_of(settings: BootstrapJobSettings) -> JobLimits {
    bootstrap_limits(
        settings.seed_armed,
        settings.seed,
        unseeded_limits(
            settings.deadline_secs,
            settings.failure_policy,
            settings.default_backoff,
            settings.ttl,
        ),
    )
}

impl BootstrapJobSettings {
    /// The limits of a bootstrap Job.
    pub fn limits(&self) -> (limits: JobLimits)
        ensures
            limits == limits_of(*self),
    {
        let backoff_limit: i32 = match self.failure_policy {
            Some(p) => match p.backoff_limit {
                Some(n) => n,
                None => self.default_backoff,
            },
            None => self.default_backoff,
        };
        let base = JobLimits {
            active_deadline_seconds: Some(self.deadline_secs),
            backoff_limit,
            ttl_seconds_after_finished: self.ttl,
        };
        seed_job_limits(self.seed_armed, &self.seed, base)
    }
}

/// A bootstrap Job before it is rendered.
pub struct BootstrapJobPlan {
    pub work_spec: MoverWorkSpec,
    pub labels: Labels,
    pub annotations: Labels,
    pub limits: JobLimits,
    pub repo_volume: Option<VolumeMountSpec>,
    pub source_volume: Option<VolumeMountSpec>,
    pub creds_secrets: Vec<CredsEnvFrom>,
    pub extra_env: Vec<SecretEnv>,
    pub service_account: Option<String>,
    /// How many of the seed's Secrets were copied in, where any were.
    pub count_projected: Option<u64>,
}

/// The labels of a bootstrap Job.
pub open spec fn bootstrap_label_map(
    name: Seq<char>,
    identity: MoverRunIdentity,
) -> Map<Seq<char>, Seq<char>> {
    let own = Map::empty().insert(CLUSTER_REPOSITORY_LABEL@, name);
    if identity.azure_workload_identity {
        own.insert(AZURE_WORKLOAD_IDENTITY_LABEL@, "true"@)
    } else {
        own
    }
}

/// The annotations of a bootstrap Job: the generation it was launched for.
pub open spec fn bootstrap_annotation_map(generation: Option<i64>) -> Map<Seq<char>, Seq<char>> {
    match generation {
        Some(g) => Map::empty().insert(BOOTSTRAP_GENERATION_ANNOTATION@, decimal(g as int)),
        None => Map::empty(),
    }
}

/// The annotations of a bootstrap Job.
pub fn bootstrap_generation_annotation(generation: Option<i64>) -> (annotations: Labels)
    ensures
        annotations.wf(),
        annotations@ == bootstrap_annotation_map(generation),
{
    let mut annotations = Labels::new();
    if let Some(g) = generation {
        annotations.insert(BOOTSTRAP_GENERATION_ANNOTATION, render_i64(g).as_str());
    }
    annotations
}

/// The part of a Job that a seed adds.
pub open spec fn carries_seed(
    plan: BootstrapJobPlan,
    own_secrets: Seq<String>,
    seed: Option<ArmedSeed>,
) -> bool {
    &&& plan.creds_secrets@.len() >= own_secrets.len()
    &&& loads_plainly(plan.creds_secrets@.take(own_secrets.len() as int), own_secrets)
    &&& plan.creds_secrets@.skip(own_secrets.len() as int) == (match seed {
        Some(s) => s.creds@,
        None => Seq::empty(),
    })
    &&& plan.extra_env@ == (match seed {
        Some(s) => s.extra_env@,
        None => Seq::empty(),
    })
    &&& plan.source_volume == (match seed {
        Some(s) => s.source_volume,
        None => None,
    })
    &&& plan.count_projected == (match seed {
        Some(s) => if s.projected > 0 {
            Some(s.projected)
        } else {
            None
        },
        None => None,
    })
}

/// The seed payload that rides a Job.
pub open spec fn seed_payload(seed: Option<ArmedSeed>) -> Option<SeedOpSpec> {
    match seed {
        Some(s) => Some(s.op),
        None => None,
    }
}

/// Plans the Job of a bootstrap. The repository's own Secrets are loaded
/// verbatim and first; what a seed brings along comes after them, as the seed
/// was armed.
pub fn bootstrap_job_plan(
    work: BootstrapWork,
    backend: &Backend,
    ca_bundle_pem: Option<String>,
    own_secrets: &Vec<String>,
    seed: Option<ArmedSeed>,
    identity: &MoverRunIdentity,
    settings: &BootstrapJobSettings,
) -> (plan: BootstrapJobPlan)
    ensures
        hands_over(plan.work_spec, work, *backend, ca_bundle_pem, seed_payload(seed)),
        plan.labels.wf(),
        plan.labels@ == bootstrap_label_map(work.name@, *identity),
        plan.annotations.wf(),
        plan.annotations@ == bootstrap_annotation_map(settings.generation),
        plan.limits == limits_of(*settings),
        mounts_own(plan.repo_volume, *backend),
        carries_seed(plan, own_secrets@, seed),
        plan.service_account == identity.service_account,
{
    let mut labels = Labels::new();
    labels.insert(CLUSTER_REPOSITORY_LABEL, work.name.as_str());
    identity.decorate_labels(&mut labels);
    let mut creds_secrets = plain_creds(own_secrets);
    let ghost own = creds_secrets@;
    let mut extra_env: Vec<SecretEnv> = Vec::new();
    let mut source_volume: Option<VolumeMountSpec> = None;
    let mut count_projected: Option<u64> = None;
    let mut op: Option<SeedOpSpec> = None;
    match seed {
        Some(s) => {
            let mut creds = s.creds;
            creds_secrets.append(&mut creds);
            extra_env = s.extra_env;
            source_volume = s.source_volume;
            if s.projected > 0 {
                count_projected = Some(s.projected);
            }
            op = Some(s.op);
            proof {
                assert(creds_secrets@.skip(own.len() as int) =~= s.creds@);
            }
        },
        None => {
            proof {
                assert(creds_secrets@.skip(own.len() as int) =~= Seq::empty());
                assert(extra_env@ =~= Seq::empty());
            }
        },
    }
    proof {
        assert(creds_secrets@.take(own.len() as int) =~= own);
    }
    let work_spec = cluster_bootstrap_work_spec(work, backend.clone(), ca_bundle_pem, op);
    BootstrapJobPlan {
        work_spec,
        labels,
        annotations: bootstrap_generation_annotation(settings.generation),
        limits: settings.limits(),
        repo_volume: repository_volume(backend),
        source_volume,
        creds_secrets,
        extra_env,
        service_account: copy_opt(&identity.service_account),
        count_projected,
    }
}

/// A bootstrap without a seed carries nothing of one: no other volume, no
/// extra variable, no prefixed Secret, and the limits of its own spec.
pub proof fn unseeded_job_carries_no_seed(
    plan: BootstrapJobPlan,
    own_secrets: Seq<String>,
    settings: BootstrapJobSettings,
    k: int,
)
    requires
        carries_seed(plan, own_secrets, None),
        plan.limits == limits_of(settings),
        !settings.seed_armed,
        0 <= k < plan.creds_secrets@.len(),
    ensures
        plan.source_volume is None,
        plan.extra_env@.len() == 0,
        plan.creds_secrets@.len() == own_secrets.len(),
        plan.creds_secrets@[k].prefix is None,
        plan.limits.active_deadline_seconds == Some(settings.deadline_secs),
{
    let own = plan.creds_secrets@.take(own_secrets.len() as int);
    assert(plan.creds_secrets@.skip(own_secrets.len() as int).len() == 0);
    assert(own[k] == plan.creds_secrets@[k]);
}

/// What a seed loads never lands on a variable of the repository's own: every
/// Secret of the seed goes under a prefix, and none of the repository's does.
pub proof fn seed_secrets_stay_apart(
    plan: BootstrapJobPlan,
    own_secrets: Seq<String>,
    seed: ArmedSeed,
    k: int,
)
    requires
        carries_seed(plan, own_secrets, Some(seed)),
        forall|i: int| 0 <= i < seed.creds@.len() ==> (#[trigger] seed.creds@[i]).prefix is Some,
        0 <= k < plan.creds_secrets@.len(),
    ensures
        plan.creds_secrets@[k].prefix is Some <==> k >= own_secrets.len(),
{
    let n = own_secrets.len() as int;
    if k < n {
        assert(plan.creds_secrets@.take(n)[k] == plan.creds_secrets@[k]);
    } else {
        assert(plan.creds_secrets@.skip(n)[k - n] == plan.creds_secrets@[k]);
        assert(seed.creds@[k - n].prefix is Some);
    }
}

/// A mover loads the Secret of the password, and the one that the backend
/// authenticates with, each once and the password's first.
pub proof fn both_secrets_are_loaded_once(backend: Backend, password_secret: Seq<char>)
    ensures
        ({
            let names = secret_names(backend, password_secret);
            &&& names.len() > 0 && names[0] == password_secret
            &&& backend.auth_secret is Some ==> names.contains(backend.auth_secret->0.name@)
            &&& names.no_duplicates()
            &&& forall|n: Seq<char>| #[trigger]
                names.contains(n) ==> n == password_secret || (backend.auth_secret is Some && n
                    == backend.auth_secret->0.name@)
        }),
{
    let names = secret_names(backend, password_secret);
    assert(names[0] == password_secret);
    if backend.auth_secret is Some {
        if backend.auth_secret->0.name@ != password_secret {
            assert(names[1] == backend.auth_secret->0.name@);
        }
    }
}

/// The pod of a bootstrap acts on its own backend first, and on the source's
/// exactly where a seed rides along.
pub proof fn seeding_pod_touches_both_backends(backend: Backend, seed: Option<ArmedSeed>)
    ensures
        touched_backends(backend, seed).len() == (if seed is Some {
            2int
        } else {
            1
        }),
        touched_backends(backend, seed)[0] == backend,
        seed is Some ==> touched_backends(backend, seed)[1] == seed->0.source_backend,
        seed_payload(seed) is Some <==> seed is Some,
        seed is Some ==> seed_payload(seed)->0 == seed->0.op,
{
}

/// The limits of a bootstrap: the deadline after escalation and the policy's
/// backoff, unless an armed seed sets its own.
pub proof fn bootstrap_is_limited_by_its_spec(settings: BootstrapJobSettings)
    ensures
        ({
            let l = limits_of(settings);
            let p = settings.failure_policy;
            let seeds = settings.seed_armed && settings.seed is Some;
            &&& !seeds ==> l.active_deadline_seconds == Some(settings.deadline_secs)
            &&& !seeds && p is Some && p->0.backoff_limit is Some ==> l.backoff_limit
                == p->0.backoff_limit->0
            &&& !seeds && (p is None || p->0.backoff_limit is None) ==> l.backoff_limit
                == settings.default_backoff
            &&& seeds ==> l.active_deadline_seconds == Some(seed_deadline(settings.seed->0))
            &&& l.ttl_seconds_after_finished == settings.ttl
        }),
{
}

/// A bootstrap Job bears the label of its repository, the mark of a federated
/// identity exactly where it has one, and, as an annotation, the generation it
/// was launched for.
pub proof fn bootstrap_job_is_marked(
    name: Seq<char>,
    identity: MoverRunIdentity,
    generation: Option<i64>,
)
    ensures
        ({
            let labels = bootstrap_label_map(name, identity);
            let marks = bootstrap_annotation_map(generation);
            let own = CLUSTER_REPOSITORY_LABEL@;
            let azure = AZURE_WORKLOAD_IDENTITY_LABEL@;
            &&& labels.dom().contains(own) && labels[own] == name
            &&& labels.dom().contains(azure) <==> identity.azure_workload_identity
            &&& identity.azure_workload_identity ==> labels[azure] == "true"@
            &&& labels.dom().subset_of(set![own, azure])
            &&& generation is None ==> marks.dom() =~= Set::empty()
            &&& generation is Some ==> marks.dom() =~= set![BOOTSTRAP_GENERATION_ANNOTATION@]
                && marks[BOOTSTRAP_GENERATION_ANNOTATION@] == decimal(generation->0 as int)
        }),
{
    reveal_strlit("kopiur.home-operations.com/cluster-repository");
    reveal_strlit("azure.workload.identity/use");
    assert(CLUSTER_REPOSITORY_LABEL@[0] == 'k');
    assert(AZURE_WORKLOAD_IDENTITY_LABEL@[0] == 'a');
}

/// A Job that carries a seed carries all of it: its Secrets after the
/// repository's own, its variables, its volume, and the count of what was
/// copied in for it.
pub proof fn seeding_job_carries_all_of_its_seed(
    plan: BootstrapJobPlan,
    own_secrets: Seq<String>,
    seed: ArmedSeed,
    k: int,
)
    requires
        carries_seed(plan, own_secrets, Some(seed)),
        0 <= k < seed.creds@.len(),
    ensures
        plan.creds_secrets@.len() == own_secrets.len() + seed.creds@.len(),
        plan.creds_secrets@[own_secrets.len() + k] == seed.creds@[k],
        plan.extra_env@ == seed.extra_env@,
        plan.source_volume == seed.source_volume,
        seed.projected > 0 ==> plan.count_projected == Some(seed.projected),
        seed.projected == 0 ==> plan.count_projected is None,
        forall|j: int|
            0 <= j < own_secrets.len() ==> (#[trigger] plan.creds_secrets@[j]).secret_name@
                == own_secrets[j]@,
{
    let n = own_secrets.len() as int;
    assert(plan.creds_secrets@.skip(n)[k] == plan.creds_secrets@[n + k]);
    assert forall|j: int| 0 <= j < own_secrets.len() implies (#[trigger] plan.creds_secrets@[j]).secret_name@
        == own_secrets[j]@ by {
        assert(plan.creds_secrets@.take(n)[j] == plan.creds_secrets@[j]);
        assert(plan.creds_secrets@.take(n)[j].secret_name@ == own_secrets[j]@);
    }
}

} // verus!
