//! A seeding run: its limits and throttles, the payload the mover receives,
//! and the checks that hold a run back.
use crate::backend::{kind_word, repo_kind_str, Backend, RepositoryKind, RepositoryRef};
use crate::conditions::StructuralGate;
use crate::error::Error;
use crate::seed::{
    copy_opt, over, seed_source_auth_conflict_gate, seed_source_not_ready_gate, SeedMode,
    DEFAULT_SEED_BOOTSTRAP_DEADLINE_SECS, SEEDED_CONDITION,
};
use crate::seed_messages::{
    auth_conflict_detail, seed_mount_path_collision_message, seed_mount_path_collision_text,
    seed_source_auth_conflict_message, seed_source_auth_conflict_text,
    seed_source_same_storage_message, seed_source_same_storage_text,
};
use crate::text::opt_text;
use vstd::prelude::*;

verus! {

/// Caps on one connection to a repository.
#[derive(Clone, Copy, Debug, PartialEq, Eq, Structural)]
pub struct Throttle {
    pub upload_bytes_per_second: Option<i64>,
    pub download_bytes_per_second: Option<i64>,
    pub read_ops_per_second: Option<i64>,
    pub write_ops_per_second: Option<i64>,
}

/// No cap at all.
pub open spec fn no_throttle() -> Throttle {
    Throttle {
        upload_bytes_per_second: None,
        download_bytes_per_second: None,
        read_ops_per_second: None,
        write_ops_per_second: None,
    }
}

/// A repository's caps with an override laid over them, field by field.
pub open spec fn throttle_over(
    defaults: Option<Throttle>,
    override_: Option<Throttle>,
) -> Throttle {
    let base = match defaults {
        Some(t) => t,
        None => no_throttle(),
    };
    match override_ {
        None => base,
        Some(t) => Throttle {
            upload_bytes_per_second: over(t.upload_bytes_per_second, base.upload_bytes_per_second),
            download_bytes_per_second: over(
                t.download_bytes_per_second,
                base.download_bytes_per_second,
            ),
            read_ops_per_second: over(t.read_ops_per_second, base.read_ops_per_second),
            write_ops_per_second: over(t.write_ops_per_second, base.write_ops_per_second),
        },
    }
}

fn num_over(top: Option<i64>, base: Option<i64>) -> (out: Option<i64>)
    ensures
        out == over(top, base),
{
    if top.is_some() {
        top
    } else {
        base
    }
}

/// Lays an override over a repository's caps, field by field.
pub fn merged_throttle(defaults: Option<Throttle>, override_: Option<Throttle>) -> (out: Throttle)
    ensures
        out == throttle_over(defaults, override_),
{
    let base = match defaults {
        Some(t) => t,
        None => Throttle {
            upload_bytes_per_second: None,
            download_bytes_per_second: None,
            read_ops_per_second: None,
            write_ops_per_second: None,
        },
    };
    match override_ {
        None => base,
        Some(t) => Throttle {
            upload_bytes_per_second: num_over(
                t.upload_bytes_per_second,
                base.upload_bytes_per_second,
            ),
            download_bytes_per_second: num_over(
                t.download_bytes_per_second,
                base.download_bytes_per_second,
            ),
            read_ops_per_second: num_over(t.read_ops_per_second, base.read_ops_per_second),
            write_ops_per_second: num_over(t.write_ops_per_second, base.write_ops_per_second),
        },
    }
}

impl Throttle {
    /// Whether nothing is capped.
    pub fn is_empty(&self) -> (empty: bool)
        ensures
            empty == (*self == no_throttle()),
    {
        self.upload_bytes_per_second.is_none() && self.download_bytes_per_second.is_none()
            && self.read_ops_per_second.is_none() && self.write_ops_per_second.is_none()
    }
}

/// The caps a seed sets for the two sides of its copy.
#[derive(Clone, Copy, Debug, PartialEq, Eq, Structural)]
pub struct SeedThrottle {
    pub source: Option<Throttle>,
    pub destination: Option<Throttle>,
}

/// Tuning of a blob copy.
#[derive(Clone, Copy, Debug, PartialEq, Eq, Structural)]
pub struct SeedSync {
    pub parallel: Option<i64>,
    pub max_download_speed_bytes_per_second: Option<i64>,
    pub max_upload_speed_bytes_per_second: Option<i64>,
}

/// Tuning of a snapshot migration. `policies` is the word for how much of the
/// source's policies is copied.
pub struct SeedMigrate {
    pub parallel: Option<i64>,
    pub latest_only: bool,
    pub policies: String,
    pub throttle: Option<SeedThrottle>,
}

/// Limits that a spec sets on a Job.
#[derive(Clone, Copy, Debug, PartialEq, Eq, Structural)]
pub struct FailurePolicy {
    pub active_deadline_seconds: Option<i64>,
    pub backoff_limit: Option<i32>,
}

/// Where a seed copies from.
pub enum SeedSource {
    Backend(Backend),
    Repository(RepositoryRef),
}

/// `spec.seed`. `description` is the one rendering of the source.
pub struct SeedSpec {
    pub from: SeedSource,
    pub description: String,
    pub sync: Option<SeedSync>,
    pub migrate: Option<SeedMigrate>,
    pub allow_empty_source: bool,
    pub failure_policy: Option<FailurePolicy>,
    pub project_credentials: bool,
}

/// The mode that a source implies.
pub open spec fn source_mode(from: SeedSource) -> SeedMode {
    match from {
        SeedSource::Backend(_) => SeedMode::Blob,
        SeedSource::Repository(_) => SeedMode::Migrate,
    }
}

impl SeedSource {
    /// The mode that this source implies.
    pub fn mode(&self) -> (mode: SeedMode)
        ensures
            mode == source_mode(*self),
    {
        match self {
            SeedSource::Backend(_) => SeedMode::Blob,
            SeedSource::Repository(_) => SeedMode::Migrate,
        }
    }
}

/// The cap that a seed sets for the repository it reads from.
pub open spec fn source_cap(seed: SeedSpec) -> Option<Throttle> {
    match seed.migrate {
        Some(m) => match m.throttle {
            Some(t) => t.source,
            None => None,
        },
        None => None,
    }
}

/// The cap that a seed sets for the repository it fills.
pub open spec fn destination_cap(seed: SeedSpec) -> Option<Throttle> {
    match seed.migrate {
        Some(m) => match m.throttle {
            Some(t) => t.destination,
            None => None,
        },
        None => None,
    }
}

fn seed_source_throttle(seed: &SeedSpec) -> (cap: Option<Throttle>)
    ensures
        cap == source_cap(*seed),
{
    match &seed.migrate {
        Some(m) => match m.throttle {
            Some(t) => t.source,
            None => None,
        },
        None => None,
    }
}

fn seed_destination_throttle(seed: &SeedSpec) -> (cap: Option<Throttle>)
    ensures
        cap == destination_cap(*seed),
{
    match &seed.migrate {
        Some(m) => match m.throttle {
            Some(t) => t.destination,
            None => None,
        },
        None => None,
    }
}

/// The cap of every connection a bootstrap opens to the repository itself.
pub open spec fn bootstrap_cap(
    armed: bool,
    seed: Option<SeedSpec>,
    defaults: Option<Throttle>,
) -> Throttle {
    throttle_over(
        defaults,
        if armed && seed is Some {
            destination_cap(seed->0)
        } else {
            None
        },
    )
}

/// The cap of every connection a bootstrap opens to the repository itself: its
/// own defaults, with the seed's override only while a seed is armed.
pub fn seed_bootstrap_throttle(
    armed: bool,
    seed: &Option<SeedSpec>,
    defaults: Option<Throttle>,
) -> (cap: Throttle)
    ensures
        cap == bootstrap_cap(armed, *seed, defaults),
{
    let override_ = match seed {
        Some(s) => if armed {
            seed_destination_throttle(s)
        } else {
            None
        },
        None => None,
    };
    merged_throttle(defaults, override_)
}

/// Limits of a mover Job.
#[derive(Clone, Copy, Debug, PartialEq, Eq, Structural)]
pub struct JobLimits {
    pub active_deadline_seconds: Option<i64>,
    pub backoff_limit: i32,
    pub ttl_seconds_after_finished: Option<i64>,
}

/// How long a seeding Job may run.
pub open spec fn seed_deadline(seed: SeedSpec) -> i64 {
    match seed.failure_policy {
        Some(p) => match p.active_deadline_seconds {
            Some(n) => n,
            None => DEFAULT_SEED_BOOTSTRAP_DEADLINE_SECS,
        },
        None => DEFAULT_SEED_BOOTSTRAP_DEADLINE_SECS,
    }
}

/// How long a seeding Job may run.
pub fn seed_active_deadline_seconds(seed: &SeedSpec) -> (secs: i64)
    ensures
        secs == seed_deadline(*seed),
{
    match seed.failure_policy {
        Some(p) => match p.active_deadline_seconds {
            Some(n) => n,
            None => DEFAULT_SEED_BOOTSTRAP_DEADLINE_SECS,
        },
        None => DEFAULT_SEED_BOOTSTRAP_DEADLINE_SECS,
    }
}

/// The limits of a bootstrap Job, whose deadline and backoff a seed replaces
/// while it is armed.
pub open spec fn bootstrap_limits(
    armed: bool,
    seed: Option<SeedSpec>,
    base: JobLimits,
) -> JobLimits {
    if armed && seed is Some {
        JobLimits {
            active_deadline_seconds: Some(seed_deadline(seed->0)),
            backoff_limit: match seed->0.failure_policy {
                Some(p) => match p.backoff_limit {
                    Some(n) => n,
                    None => base.backoff_limit,
                },
                None => base.backoff_limit,
            },
            ttl_seconds_after_finished: base.ttl_seconds_after_finished,
        }
    } else {
        base
    }
}

/// The limits of a bootstrap Job, whose deadline and backoff a seed replaces
/// while it is armed.
pub fn seed_job_limits(armed: bool, seed: &Option<SeedSpec>, base: JobLimits) -> (limits: JobLimits)
    ensures
        limits == bootstrap_limits(armed, *seed, base),
{
    match seed {
        Some(s) => {
            if armed {
                let backoff_limit: i32 = match s.failure_policy {
                    Some(p) => match p.backoff_limit {
                        Some(n) => n,
                        None => base.backoff_limit,
                    },
                    None => base.backoff_limit,
                };
                JobLimits {
                    active_deadline_seconds: Some(seed_active_deadline_seconds(s)),
                    backoff_limit,
                    ttl_seconds_after_finished: base.ttl_seconds_after_finished,
                }
            } else {
                base
            }
        },
        None => base,
    }
}

/// How the mover connects to a repository: its backend, with the authority
/// that signs its endpoint.
pub struct RepositoryConnect {
    pub backend: Backend,
    pub ca_bundle_pem: Option<String>,
}

/// A repository object that a seed reads from, with the resolved namespace.
pub struct SeedRepositoryConnect {
    pub kind: String,
    pub name: String,
    pub namespace: Option<String>,
    pub connect: RepositoryConnect,
}

/// What the mover connects to as the source of a seed.
pub enum SeedConnectSource {
    Backend(RepositoryConnect),
    Repository(SeedRepositoryConnect),
}

/// Tuning of a snapshot migration, as the mover receives it.
pub struct SeedMigrateSpec {
    pub parallel: Option<i64>,
    pub latest_only: bool,
    pub policies: String,
}

/// The seed payload of a bootstrap.
pub struct SeedOpSpec {
    pub from: SeedConnectSource,
    pub source_description: String,
    pub sync: Option<SeedSync>,
    pub migrate: Option<SeedMigrateSpec>,
    pub allow_empty_source: bool,
    pub resume: bool,
    pub replica_throttle: Throttle,
}

/// A source repository that was found.
pub struct SeedSourceRepository {
    pub kind: RepositoryKind,
    pub name: String,
    pub repo_namespace: Option<String>,
    pub backend: Backend,
    pub ca_bundle_pem: Option<String>,
    pub throttle_defaults: Option<Throttle>,
    pub password_key: Option<String>,
}

/// Whether a payload connects to what a seed names: to its inline backend,
/// under the authority that was read for it, or to the repository that was
/// found for it, under that one's own authority and resolved namespace.
pub open spec fn connects_to(
    from: SeedConnectSource,
    seed: SeedSpec,
    blob_ca: Option<String>,
    source: Option<SeedSourceRepository>,
) -> bool {
    match seed.from {
        SeedSource::Backend(backend) => from == SeedConnectSource::Backend(
            RepositoryConnect { backend, ca_bundle_pem: blob_ca },
        ),
        SeedSource::Repository(_) => match (from, source) {
            (SeedConnectSource::Repository(r), Some(src)) => {
                &&& r.kind@ == kind_word(src.kind)
                &&& r.name@ == src.name@
                &&& r.namespace == src.repo_namespace
                &&& r.connect == (RepositoryConnect {
                    backend: src.backend,
                    ca_bundle_pem: src.ca_bundle_pem,
                })
            },
            _ => false,
        },
    }
}

/// The part of a migration's tuning that the mover receives.
pub open spec fn mover_migrate(m: Option<SeedMigrate>) -> Option<SeedMigrateSpec> {
    match m {
        Some(m) => Some(
            SeedMigrateSpec {
                parallel: m.parallel,
                latest_only: m.latest_only,
                policies: m.policies,
            },
        ),
        None => None,
    }
}

/// The cap on the connection to the source: for a repository its own defaults
/// with the seed's override, for an inline backend none.
pub open spec fn replica_cap(seed: SeedSpec, source: Option<SeedSourceRepository>) -> Throttle {
    match (seed.from, source) {
        (SeedSource::Repository(_), Some(src)) => throttle_over(
            src.throttle_defaults,
            source_cap(seed),
        ),
        _ => no_throttle(),
    }
}

/// Whether `op` is the payload of this seed.
pub open spec fn is_op_for(
    op: SeedOpSpec,
    seed: SeedSpec,
    blob_ca: Option<String>,
    source: Option<SeedSourceRepository>,
    resume: bool,
) -> bool {
    &&& connects_to(op.from, seed, blob_ca, source)
    &&& op.source_description@ == seed.description@
    &&& op.sync == seed.sync
    &&& op.migrate == mover_migrate(seed.migrate)
    &&& op.allow_empty_source == seed.allow_empty_source
    &&& op.resume == resume
    &&& op.replica_throttle == replica_cap(seed, source)
}

/// Builds the mover's seed payload. There is none where the seed names a
/// repository and none was found.
pub fn seed_op_for(
    seed: &SeedSpec,
    blob_ca_bundle_pem: Option<String>,
    source: &Option<SeedSourceRepository>,
    resume: bool,
) -> (op: Option<SeedOpSpec>)
    ensures
        op is None <==> (seed.from is Repository && source is None),
        op is Some ==> is_op_for(op->0, *seed, blob_ca_bundle_pem, *source, resume),
{
    let migrate = match &seed.migrate {
        Some(m) => Some(
            SeedMigrateSpec {
                parallel: m.parallel,
                latest_only: m.latest_only,
                policies: m.policies.clone(),
            },
        ),
        None => None,
    };
    let (from, replica_throttle) = match (&seed.from, source) {
        (SeedSource::Backend(backend), _) => (
            SeedConnectSource::Backend(
                RepositoryConnect {
                    backend: backend.clone(),
                    ca_bundle_pem: blob_ca_bundle_pem,
                },
            ),
            Throttle {
                upload_bytes_per_second: None,
                download_bytes_per_second: None,
                read_ops_per_second: None,
                write_ops_per_second: None,
            },
        ),
        (SeedSource::Repository(_), Some(src)) => (
            SeedConnectSource::Repository(
                SeedRepositoryConnect {
                    kind: repo_kind_str(src.kind).to_owned(),
                    name: src.name.clone(),
                    namespace: copy_opt(&src.repo_namespace),
                    connect: RepositoryConnect {
                        backend: src.backend.clone(),
                        ca_bundle_pem: copy_opt(&src.ca_bundle_pem),
                    },
                },
            ),
            merged_throttle(src.throttle_defaults, seed_source_throttle(seed)),
        ),
        (SeedSource::Repository(_), None) => {
            return None;
        },
    };
    Some(
        SeedOpSpec {
            from,
            source_description: seed.description.clone(),
            sync: seed.sync,
            migrate,
            allow_empty_source: seed.allow_empty_source,
            resume,
            replica_throttle,
        },
    )
}

/// A refusal to launch a seed, as a condition to write.
pub struct SeedPark {
    pub gate: StructuralGate,
    pub message: String,
}

/// What a [`SeedPark`] says, as plain values.
#[verifier::ext_equal]
pub struct SeedParkView {
    pub condition: Seq<char>,
    pub blocked: bool,
    pub reason: Seq<char>,
    pub message: Seq<char>,
}

impl View for SeedPark {
    type V = SeedParkView;

    open spec fn view(&self) -> SeedParkView {
        SeedParkView {
            condition: self.gate.condition@,
            blocked: self.gate.blocked,
            reason: self.gate.reason@,
            message: self.message@,
        }
    }
}

/// What an optional park says.
pub open spec fn opt_park(park: Option<SeedPark>) -> Option<SeedParkView> {
    match park {
        Some(p) => Some(p@),
        None => None,
    }
}

/// A park of the seed under a reason.
pub open spec fn parked(reason: Seq<char>, message: Seq<char>) -> SeedParkView {
    SeedParkView { condition: SEEDED_CONDITION@, blocked: false, reason, message }
}

/// A park on a source that is not usable.
pub open spec fn parked_on_source(message: Seq<char>) -> SeedParkView {
    parked("WaitingForSeedSource"@, message)
}

impl SeedPark {
    /// A park on a source that is not usable.
    pub fn source_not_usable(message: String) -> (park: Self)
        ensures
            park@ == parked_on_source(message@),
    {
        SeedPark { gate: seed_source_not_ready_gate(), message }
    }
}

/// How a repository's own backend and the backend of its seed source compare.
pub struct BackendPair {
    /// The kind of the repository's own backend.
    pub local_kind: String,
    /// Whether the two resolve to one storage location.
    pub same_storage: bool,
    /// The path at which both would be mounted in one pod.
    pub mount_collision: Option<String>,
    /// Whether the credentials of the two cannot share one pod.
    pub auth_conflict: bool,
    /// The ServiceAccount that the repository's own backend federates as.
    pub local_identity: Option<String>,
    /// The ServiceAccount that the source federates as.
    pub source_identity: Option<String>,
}

/// How a pair of backends holds a seed back. One storage location comes before
/// one mount path, and both before the credentials.
pub open spec fn pair_park(source_description: Seq<char>, pair: BackendPair) -> Option<SeedParkView> {
    if pair.same_storage {
        Some(
            parked_on_source(seed_source_same_storage_text(source_description, pair.local_kind@)),
        )
    } else if pair.mount_collision is Some {
        Some(
            parked_on_source(
                seed_mount_path_collision_text(source_description, pair.mount_collision->0@),
            ),
        )
    } else if pair.auth_conflict {
        Some(
            parked(
                "SeedSourceAuthConflict"@,
                seed_source_auth_conflict_text(
                    source_description,
                    auth_conflict_detail(
                        opt_text(pair.local_identity),
                        opt_text(pair.source_identity),
                    ),
                ),
            ),
        )
    } else {
        None
    }
}

/// Decides whether a pair of backends holds a seed back.
pub fn migrate_source_backend_park(source_description: &str, pair: &BackendPair) -> (park: Option<
    SeedPark,
>)
    ensures
        opt_park(park) == pair_park(source_description@, *pair),
{
    if pair.same_storage {
        return Some(
            SeedPark::source_not_usable(
                seed_source_same_storage_message(source_description, pair.local_kind.as_str()),
            ),
        );
    }
    if let Some(path) = &pair.mount_collision {
        return Some(
            SeedPark::source_not_usable(
                seed_mount_path_collision_message(source_description, path.as_str()),
            ),
        );
    }
    if pair.auth_conflict {
        return Some(
            SeedPark {
                gate: seed_source_auth_conflict_gate(),
                message: seed_source_auth_conflict_message(
                    source_description,
                    &pair.local_identity,
                    &pair.source_identity,
                ),
            },
        );
    }
    None
}

/// A volume and where it is mounted.
pub struct VolumeMountSpec {
    pub source: String,
    pub mount_path: String,
    pub pvc_publication_read_only: bool,
    pub container_mount_read_only: bool,
}

/// Whether a volume is the read-only mount of a source's own volume.
pub open spec fn mounts_source(volume: Option<VolumeMountSpec>, backend: Backend) -> bool {
    &&& volume is Some <==> backend.volume is Some
    &&& volume is Some ==> {
        &&& volume->0.source@ == backend.volume->0@
        &&& volume->0.mount_path@ == (match backend.path {
            Some(p) => p@,
            None => Seq::empty(),
        })
        &&& volume->0.pvc_publication_read_only
        &&& volume->0.container_mount_read_only
    }
}

/// Whether a volume is the mount of a repository's own volume, for writing.
pub open spec fn mounts_own(volume: Option<VolumeMountSpec>, backend: Backend) -> bool {
    &&& volume is Some <==> backend.volume is Some
    &&& volume is Some ==> {
        &&& volume->0.source@ == backend.volume->0@
        &&& volume->0.mount_path@ == (match backend.path {
            Some(p) => p@,
            None => Seq::empty(),
        })
        &&& !volume->0.pvc_publication_read_only
        &&& !volume->0.container_mount_read_only
    }
}

fn mount_of(backend: &Backend, read_only: bool) -> (volume: Option<VolumeMountSpec>)
    ensures
        read_only ==> mounts_source(volume, *backend),
        !read_only ==> mounts_own(volume, *backend),
{
    match &backend.volume {
        Some(source) => {
            let mount_path = match &backend.path {
                Some(p) => p.clone(),
                None => String::new(),
            };
            Some(
                VolumeMountSpec {
                    source: source.clone(),
                    mount_path,
                    pvc_publication_read_only: read_only,
                    container_mount_read_only: read_only,
                },
            )
        },
        None => None,
    }
}

/// The volume of a filesystem repository, mounted for writing at its own path;
/// none for a backend that is reached over the network.
pub fn repository_volume(backend: &Backend) -> (volume: Option<VolumeMountSpec>)
    ensures
        mounts_own(volume, *backend),
{
    mount_of(backend, false)
}

/// The volume of a filesystem source, mounted for reading at its own path.
/// Nothing is mounted for a source that has no volume.
pub fn seed_source_volume(backend: &Backend) -> (volume: Option<VolumeMountSpec>)
    ensures
        mounts_source(volume, *backend),
{
    mount_of(backend, true)
}

/// The environment variable that carries the source's password.
pub const SEED_KOPIA_PASSWORD_ENV: &'static str = "KOPIUR_SEED_KOPIA_PASSWORD";

/// The prefix under which the source's credentials are loaded.
pub const SEED_ENV_PREFIX: &'static str = "KOPIUR_SEED_";

/// The key under which a Secret holds a password where none is named.
pub const DEFAULT_PASSWORD_KEY: &'static str = "KOPIA_PASSWORD";

/// What is said where the credentials of a source resolved to no Secret.
pub const NO_SEED_SECRET: &'static str = "seed source credential resolution yielded no Secret names — the encryption password Secret is mandatory, so this is a kopiur bug";

/// An environment variable read from a key of a Secret that must exist.
pub struct SecretEnv {
    pub name: String,
    pub secret_name: String,
    pub secret_key: String,
    pub optional: bool,
}

/// The password variable of a seeding Job: a reference to the first resolved
/// Secret, under the key that the source names.
pub fn seed_password_env(resolved_names: &Vec<String>, password_key: &Option<String>) -> (env: Result<
    SecretEnv,
    Error,
>)
    ensures
        env is Ok <==> resolved_names@.len() > 0,
        env matches Ok(e) ==> {
            &&& e.name@ == SEED_KOPIA_PASSWORD_ENV@
            &&& e.secret_name@ == resolved_names@[0]@
            &&& e.secret_key@ == (match *password_key {
                Some(k) => k@,
                None => DEFAULT_PASSWORD_KEY@,
            })
            &&& !e.optional
        },
        env matches Err(e) ==> e is Invariant && e.text() == NO_SEED_SECRET@,
{
    if resolved_names.len() == 0 {
        return Err(Error::Invariant(NO_SEED_SECRET.to_owned()));
    }
    let secret_key = match password_key {
        Some(k) => k.clone(),
        None => DEFAULT_PASSWORD_KEY.to_owned(),
    };
    Ok(
        SecretEnv {
            name: SEED_KOPIA_PASSWORD_ENV.to_owned(),
            secret_name: resolved_names[0].clone(),
            secret_key,
            optional: false,
        },
    )
}

/// A Secret loaded into a pod's environment, verbatim or under a prefix.
pub struct CredsEnvFrom {
    pub secret_name: String,
    pub prefix: Option<String>,
}

/// Whether a list of loads names these Secrets, in order and verbatim.
pub open spec fn loads_plainly(creds: Seq<CredsEnvFrom>, names: Seq<String>) -> bool {
    &&& creds.len() == names.len()
    &&& forall|i: int|
        0 <= i < creds.len() ==> (#[trigger] creds[i]).secret_name@ == names[i]@
            && creds[i].prefix is None
}

/// Loads Secrets verbatim.
pub fn plain_creds(names: &Vec<String>) -> (creds: Vec<CredsEnvFrom>)
    ensures
        loads_plainly(creds@, names@),
{
    let mut creds: Vec<CredsEnvFrom> = Vec::new();
    let mut i: usize = 0;
    while i < names.len()
        invariant
            i <= names.len(),
            loads_plainly(creds@, names@.take(i as int)),
        decreases names.len() - i,
    {
        creds.push(CredsEnvFrom { secret_name: names[i].clone(), prefix: None });
        i = i + 1;
    }
    proof {
        assert(names@.take(i as int) =~= names@);
    }
    creds
}

/// A seed that is ready to ride a bootstrap Job.
pub struct ArmedSeed {
    pub op: SeedOpSpec,
    pub mode: SeedMode,
    pub source_description: String,
    pub creds: Vec<CredsEnvFrom>,
    pub extra_env: Vec<SecretEnv>,
    pub source_volume: Option<VolumeMountSpec>,
    pub source_backend: Backend,
    pub projected: u64,
}

/// Whether a list of loads names these Secrets, in order, each under the
/// prefix of a seed source.
pub open spec fn loads(creds: Seq<CredsEnvFrom>, names: Seq<String>) -> bool {
    &&& creds.len() == names.len()
    &&& forall|i: int|
        0 <= i < creds.len() ==> (#[trigger] creds[i]).secret_name@ == names[i]@ && opt_text(
            creds[i].prefix,
        ) == Some(SEED_ENV_PREFIX@)
}

/// What is said where a blob seed led to no payload.
pub const NO_BLOB_PAYLOAD: &'static str = "a blob seed resolved to no mover payload; this is a kopiur bug";

/// What is said where a migration led to no payload.
pub const NO_MIGRATE_PAYLOAD: &'static str = "a migrate seed with a resolved source produced no mover payload; this is a kopiur bug";

/// Arms a seed that copies an inline backend. Only its storage credentials
/// ride along: the copy inherits the repository's own password.
pub fn arm_blob_seed(
    seed: &SeedSpec,
    backend: &Backend,
    ca_bundle_pem: Option<String>,
    resume: bool,
) -> (armed: Result<ArmedSeed, Error>)
    requires
        seed.from == SeedSource::Backend(*backend),
    ensures
        armed matches Ok(a) && {
            &&& is_op_for(a.op, *seed, ca_bundle_pem, None, resume)
            &&& a.mode == SeedMode::Blob
            &&& a.source_description@ == seed.description@
            &&& a.creds@.len() == (if backend.auth_secret is Some { 1int } else { 0 })
            &&& backend.auth_secret is Some ==> loads(a.creds@, seq![backend.auth_secret->0.name])
            &&& a.extra_env@.len() == 0
            &&& mounts_source(a.source_volume, *backend)
            &&& a.source_backend == *backend
            &&& a.projected == 0
        },
{
    let mut creds: Vec<CredsEnvFrom> = Vec::new();
    if let Some(secret) = &backend.auth_secret {
        creds.push(
            CredsEnvFrom {
                secret_name: secret.name.clone(),
                prefix: Some(SEED_ENV_PREFIX.to_owned()),
            },
        );
    }
    match seed_op_for(seed, ca_bundle_pem, &None, resume) {
        None => Err(Error::Invariant(NO_BLOB_PAYLOAD.to_owned())),
        Some(op) => Ok(
            ArmedSeed {
                op,
                mode: SeedMode::Blob,
                source_description: seed.description.clone(),
                creds,
                extra_env: Vec::new(),
                source_volume: seed_source_volume(backend),
                source_backend: backend.clone(),
                projected: 0,
            },
        ),
    }
}

/// Arms a seed that migrates from the repository it refers to, once that was
/// found: its Secrets under the prefix of a seed source, its password by
/// reference, its volume for reading.
pub fn arm_migrate_seed(
    seed: &SeedSpec,
    source: SeedSourceRepository,
    resolved_names: &Vec<String>,
    projected: u64,
    resume: bool,
) -> (armed: Result<ArmedSeed, Error>)
    requires
        seed.from is Repository,
        source.kind == seed.from->Repository_0.kind,
        source.name@ == seed.from->Repository_0.name@,
    ensures
        armed is Ok <==> resolved_names@.len() > 0,
        armed matches Err(e) ==> e is Invariant && e.text() == NO_SEED_SECRET@,
        armed matches Ok(a) ==> {
            &&& is_op_for(a.op, *seed, None, Some(source), resume)
            &&& a.op.from is Repository
            &&& a.op.from->Repository_0.kind@ == kind_word(seed.from->Repository_0.kind)
            &&& a.op.from->Repository_0.name@ == seed.from->Repository_0.name@
            &&& a.mode == SeedMode::Migrate
            &&& a.source_description@ == seed.description@
            &&& loads(a.creds@, resolved_names@)
            &&& a.extra_env@.len() == 1
            &&& a.extra_env@[0].name@ == SEED_KOPIA_PASSWORD_ENV@
            &&& a.extra_env@[0].secret_name@ == resolved_names@[0]@
            &&& a.extra_env@[0].secret_key@ == (match source.password_key {
                Some(k) => k@,
                None => DEFAULT_PASSWORD_KEY@,
            })
            &&& !a.extra_env@[0].optional
            &&& mounts_source(a.source_volume, source.backend)
            &&& a.source_backend == source.backend
            &&& a.projected == projected
        },
{
    let env = match seed_password_env(resolved_names, &source.password_key) {
        Ok(e) => e,
        Err(e) => {
            return Err(e);
        },
    };
    let mut creds: Vec<CredsEnvFrom> = Vec::new();
    let mut i: usize = 0;
    while i < resolved_names.len()
        invariant
            i <= resolved_names.len(),
            creds@.len() == i,
            forall|j: int|
                0 <= j < i ==> (#[trigger] creds@[j]).secret_name@ == resolved_names@[j]@
                    && opt_text(creds@[j].prefix) == Some(SEED_ENV_PREFIX@),
        decreases resolved_names.len() - i,
    {
        creds.push(
            CredsEnvFrom {
                secret_name: resolved_names[i].clone(),
                prefix: Some(SEED_ENV_PREFIX.to_owned()),
            },
        );
        i = i + 1;
    }
    let source_volume = seed_source_volume(&source.backend);
    let source_backend = source.backend.clone();
    let found = Some(source);
    match seed_op_for(seed, None, &found, resume) {
        None => Err(Error::Invariant(NO_MIGRATE_PAYLOAD.to_owned())),
        Some(op) => {
            let mut extra_env: Vec<SecretEnv> = Vec::new();
            extra_env.push(env);
            Ok(
                ArmedSeed {
                    op,
                    mode: SeedMode::Migrate,
                    source_description: seed.description.clone(),
                    creds,
                    extra_env,
                    source_volume,
                    source_backend,
                    projected,
                },
            )
        },
    }
}

/// Which way an armed seed is prepared.
#[derive(Clone, Copy, Debug, PartialEq, Eq, Structural)]
pub enum SeedArmingStep {
    NotArmed,
    ArmBlob,
    ArmMigrate,
}

/// Decides how a seed is prepared. A seed that is not armed is none at all; an
/// armed one is refused with the first complaint about it.
pub fn arm_seed(seed: &Option<SeedSpec>, armed: bool, complaints: &Vec<String>) -> (step: Result<
    SeedArmingStep,
    Error,
>)
    ensures
        !armed || seed is None ==> step == Ok::<SeedArmingStep, Error>(SeedArmingStep::NotArmed),
        armed && seed is Some && complaints@.len() > 0 ==> step is Err && step->Err_0 is Validation
            && step->Err_0.text() == complaints@[0]@,
        armed && seed is Some && complaints@.len() == 0 ==> step is Ok && step->Ok_0 == (
        match seed->0.from {
            SeedSource::Backend(_) => SeedArmingStep::ArmBlob,
            SeedSource::Repository(_) => SeedArmingStep::ArmMigrate,
        }),
{
    match seed {
        Some(s) => {
            if !armed {
                Ok(SeedArmingStep::NotArmed)
            } else if complaints.len() > 0 {
                Err(Error::Validation(complaints[0].clone()))
            } else {
                match &s.from {
                    SeedSource::Backend(_) => Ok(SeedArmingStep::ArmBlob),
                    SeedSource::Repository(_) => Ok(SeedArmingStep::ArmMigrate),
                }
            }
        },
        None => Ok(SeedArmingStep::NotArmed),
    }
}

/// The mode under which a failed seed is counted: none where none was armed.
pub fn seed_failure_to_count(seed: &Option<SeedSpec>, armed: bool) -> (mode: Option<SeedMode>)
    ensures
        mode == (if armed && seed is Some {
            Some(source_mode(seed->0.from))
        } else {
            None
        }),
{
    match seed {
        Some(s) => if armed {
            Some(s.from.mode())
        } else {
            None
        },
        None => None,
    }
}

/// An unarmed seed changes nothing: the limits of the Job and the cap of its
/// connection are those of a repository without one.
pub proof fn unarmed_seed_changes_nothing(
    seed: Option<SeedSpec>,
    base: JobLimits,
    defaults: Option<Throttle>,
)
    ensures
        bootstrap_limits(false, seed, base) == base,
        bootstrap_cap(false, seed, defaults) == bootstrap_cap(false, None, defaults),
        bootstrap_limits(true, None, base) == base,
{
}

/// The two sides of a migration are capped apart: the source by its own
/// defaults and the seed's override for it, the repository by its own
/// defaults and the seed's override for it, and neither by the other's.
pub proof fn throttle_sides_do_not_cross(
    seed: SeedSpec,
    source: SeedSourceRepository,
    defaults: Option<Throttle>,
    other_seed: SeedSpec,
    other_source: SeedSourceRepository,
    other_defaults: Option<Throttle>,
)
    requires
        seed.from is Repository,
        other_seed.from is Repository,
    ensures
        source_cap(seed) == source_cap(other_seed) && source.throttle_defaults
            == other_source.throttle_defaults ==> replica_cap(seed, Some(source)) == replica_cap(
            other_seed,
            Some(other_source),
        ),
        destination_cap(seed) == destination_cap(other_seed) && defaults == other_defaults
            ==> bootstrap_cap(true, Some(seed), defaults) == bootstrap_cap(
            true,
            Some(other_seed),
            other_defaults,
        ),
{
}

/// An override caps what it names and leaves every other cap of the repository
/// as it is; without either nothing is capped.
pub proof fn override_caps_what_it_names(defaults: Throttle, t: Throttle)
    ensures
        ({
            let both = throttle_over(Some(defaults), Some(t));
            &&& t.upload_bytes_per_second is Some ==> both.upload_bytes_per_second
                == t.upload_bytes_per_second
            &&& t.upload_bytes_per_second is None ==> both.upload_bytes_per_second
                == defaults.upload_bytes_per_second
            &&& t.download_bytes_per_second is Some ==> both.download_bytes_per_second
                == t.download_bytes_per_second
            &&& t.download_bytes_per_second is None ==> both.download_bytes_per_second
                == defaults.download_bytes_per_second
            &&& t.read_ops_per_second is Some ==> both.read_ops_per_second
                == t.read_ops_per_second
            &&& t.read_ops_per_second is None ==> both.read_ops_per_second
                == defaults.read_ops_per_second
            &&& t.write_ops_per_second is Some ==> both.write_ops_per_second
                == t.write_ops_per_second
            &&& t.write_ops_per_second is None ==> both.write_ops_per_second
                == defaults.write_ops_per_second
            &&& throttle_over(Some(defaults), None) == defaults
            &&& throttle_over(None, Some(t)) == t
            &&& no_cap_in(throttle_over(None, None))
        }),
{
}

/// Whether nothing is capped.
pub open spec fn no_cap_in(t: Throttle) -> bool {
    &&& t.upload_bytes_per_second is None
    &&& t.download_bytes_per_second is None
    &&& t.read_ops_per_second is None
    &&& t.write_ops_per_second is None
}

/// An inline backend is copied blob by blob, and a repository is migrated.
pub proof fn source_implies_the_mode(from: SeedSource)
    ensures
        source_mode(from) == SeedMode::Blob <==> from is Backend,
        source_mode(from) == SeedMode::Migrate <==> from is Repository,
{
}

/// Each side of a copy is capped by what the seed says of that side: the
/// repository that is filled by the destination's cap, and only while the seed
/// is armed; the source by the source's, over its own defaults; and an inline
/// backend by nothing.
pub proof fn each_side_is_capped_by_its_own(
    seed: SeedSpec,
    t: SeedThrottle,
    defaults: Option<Throttle>,
    source: SeedSourceRepository,
)
    requires
        seed.migrate is Some,
        seed.migrate->0.throttle == Some(t),
    ensures
        bootstrap_cap(true, Some(seed), defaults) == throttle_over(defaults, t.destination),
        bootstrap_cap(false, Some(seed), defaults) == throttle_over(defaults, None),
        bootstrap_cap(true, None, defaults) == throttle_over(defaults, None),
        seed.from is Repository ==> replica_cap(seed, Some(source)) == throttle_over(
            source.throttle_defaults,
            t.source,
        ),
        seed.from is Backend ==> no_cap_in(replica_cap(seed, Some(source))) && no_cap_in(
            replica_cap(seed, None),
        ),
{
}

/// A seed that sets no caps leaves both sides at their defaults.
pub proof fn uncapped_seed_leaves_the_defaults(
    seed: SeedSpec,
    defaults: Option<Throttle>,
    source: SeedSourceRepository,
)
    requires
        seed.migrate is None || seed.migrate->0.throttle is None,
    ensures
        bootstrap_cap(true, Some(seed), defaults) == throttle_over(defaults, None),
        seed.from is Repository ==> replica_cap(seed, Some(source)) == throttle_over(
            source.throttle_defaults,
            None,
        ),
{
}

/// An armed seed runs for as long as its policy says, a day where it says
/// nothing, and backs off as its policy says; its Job is removed when any
/// bootstrap's is. A seed that is not armed changes no limit.
pub proof fn armed_seed_sets_its_limits(armed: bool, seed: SeedSpec, base: JobLimits)
    ensures
        ({
            let l = bootstrap_limits(armed, Some(seed), base);
            let p = seed.failure_policy;
            let deadline = p is Some && p->0.active_deadline_seconds is Some;
            let backoff = p is Some && p->0.backoff_limit is Some;
            &&& !armed ==> l == base
            &&& armed && deadline ==> l.active_deadline_seconds == p->0.active_deadline_seconds
            &&& armed && !deadline ==> l.active_deadline_seconds == Some(86_400i64)
            &&& armed && backoff ==> l.backoff_limit == p->0.backoff_limit->0
            &&& armed && !backoff ==> l.backoff_limit == base.backoff_limit
            &&& l.ttl_seconds_after_finished == base.ttl_seconds_after_finished
        }),
{
}

/// The payload of a seed is the seed's own: it connects to what the seed names
/// and to nothing else, and carries its description, its tuning, whether an
/// empty source will do, and whether it resumes.
pub proof fn payload_is_the_seeds_own(
    op: SeedOpSpec,
    seed: SeedSpec,
    blob_ca: Option<String>,
    source: Option<SeedSourceRepository>,
    resume: bool,
)
    requires
        is_op_for(op, seed, blob_ca, source, resume),
    ensures
        seed.from matches SeedSource::Backend(backend) ==> {
            &&& op.from is Backend
            &&& op.from->Backend_0.backend == backend
            &&& op.from->Backend_0.ca_bundle_pem == blob_ca
        },
        seed.from is Repository ==> {
            &&& source is Some
            &&& op.from is Repository
            &&& op.from->Repository_0.name@ == source->0.name@
            &&& op.from->Repository_0.kind@ == (match source->0.kind {
                RepositoryKind::Repository => "Repository"@,
                RepositoryKind::ClusterRepository => "ClusterRepository"@,
            })
            &&& op.from->Repository_0.namespace == source->0.repo_namespace
            &&& op.from->Repository_0.connect.backend == source->0.backend
            &&& op.from->Repository_0.connect.ca_bundle_pem == source->0.ca_bundle_pem
        },
        op.source_description@ == seed.description@,
        op.sync == seed.sync,
        op.migrate is Some <==> seed.migrate is Some,
        op.migrate is Some ==> {
            &&& op.migrate->0.parallel == seed.migrate->0.parallel
            &&& op.migrate->0.latest_only == seed.migrate->0.latest_only
            &&& op.migrate->0.policies == seed.migrate->0.policies
        },
        op.allow_empty_source == seed.allow_empty_source,
        op.resume == resume,
        op.replica_throttle == replica_cap(seed, source),
{
}

/// A pair of backends holds a seed back exactly where they are one storage,
/// would be mounted at one path, or cannot share a pod with their credentials.
/// It says so under the seed's own condition: as a source that is not usable,
/// or, where only the credentials clash, as that.
pub proof fn clashing_backends_hold_a_seed_back(source_description: Seq<char>, pair: BackendPair)
    ensures
        ({
            let park = pair_park(source_description, pair);
            let usable = !pair.same_storage && pair.mount_collision is None;
            &&& park is None <==> usable && !pair.auth_conflict
            &&& park is Some ==> park->0.condition == "Seeded"@ && !park->0.blocked
            &&& park is Some && !usable ==> park->0.reason == "WaitingForSeedSource"@
            &&& park is Some && usable ==> park->0.reason == "SeedSourceAuthConflict"@
            &&& pair.same_storage ==> park->0.message == seed_source_same_storage_text(
                source_description,
                pair.local_kind@,
            )
            &&& !pair.same_storage && pair.mount_collision is Some ==> park->0.message
                == seed_mount_path_collision_text(source_description, pair.mount_collision->0@)
            &&& park is Some && usable ==> park->0.message == seed_source_auth_conflict_text(
                source_description,
                auth_conflict_detail(
                    opt_text(pair.local_identity),
                    opt_text(pair.source_identity),
                ),
            )
        }),
{
}

/// A source's volume is mounted for reading and a repository's own for
/// writing, each at its own path; what has no volume is not mounted.
pub proof fn source_is_mounted_for_reading_only(
    own: Option<VolumeMountSpec>,
    source: Option<VolumeMountSpec>,
    backend: Backend,
)
    requires
        mounts_own(own, backend),
        mounts_source(source, backend),
    ensures
        own is Some <==> backend.volume is Some,
        source is Some <==> backend.volume is Some,
        own is Some ==> {
            &&& own->0.source@ == backend.volume->0@
            &&& source->0.source@ == backend.volume->0@
            &&& backend.path is Some ==> own->0.mount_path@ == backend.path->0@
                && source->0.mount_path@ == backend.path->0@
            &&& !own->0.container_mount_read_only && !own->0.pvc_publication_read_only
            &&& source->0.container_mount_read_only && source->0.pvc_publication_read_only
        },
{
}

/// The Secrets of a source are loaded under a prefix, all of them and in
/// order, so that none of their keys lands where the repository's own do; the
/// repository's own are loaded as they are.
pub proof fn secrets_are_loaded_apart(
    plain: Seq<CredsEnvFrom>,
    prefixed: Seq<CredsEnvFrom>,
    names: Seq<String>,
    k: int,
)
    requires
        loads_plainly(plain, names),
        loads(prefixed, names),
        0 <= k < names.len(),
    ensures
        plain.len() == names.len(),
        prefixed.len() == names.len(),
        plain[k].secret_name@ == names[k]@,
        prefixed[k].secret_name@ == names[k]@,
        plain[k].prefix is None,
        prefixed[k].prefix is Some,
        prefixed[k].prefix->0@ == "KOPIUR_SEED_"@,
{
    assert(plain[k].prefix is None);
    assert(prefixed[k].prefix is Some);
}

} // verus!
