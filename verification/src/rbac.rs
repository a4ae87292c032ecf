//! Who a mover runs as: its ServiceAccount, the role bound to it, and what a
//! namespace must have allowed.
use crate::backend::{Backend, WorkloadIdentityCloud};
use crate::error::Error;
use crate::labels::{
    Labels, ObjectMeta, COMPONENT_LABEL, MANAGED_BY_LABEL, MANAGED_BY_VALUE,
};
use crate::names::{
    binding_name, derived_name, prefixes_are_short, snapshot_replication_mover_name,
    stream_mover_name, wi_rolebinding_name, wi_rolebinding_named, SREPL_BINDING_PREFIX,
    STREAM_BINDING_PREFIX, WI_BINDING_PREFIX,
};
use crate::text::{is_text, mentions, opt_str, opt_text, part_is_mentioned};
use vstd::prelude::*;
use vstd::string::StringExecFns;

verus! {

/// The namespace annotation that allows privileged movers. Assumed to be the
/// key that the custom resources' API gives it; nothing here can tell.
pub const PRIVILEGED_MOVERS_ANNOTATION: &'static str = "kopiur.home-operations.com/privileged-movers";

/// The namespace annotation that allows stream sources. Assumed to be the key
/// that the custom resources' API gives it; nothing here can tell.
pub const STREAM_EXEC_ANNOTATION: &'static str = "kopiur.home-operations.com/stream-exec";

/// The label that asks Azure's webhook to inject credentials.
pub const AZURE_WORKLOAD_IDENTITY_LABEL: &'static str = "azure.workload.identity/use";

/// How a mover Job is called where its ServiceAccount is missing.
pub const WI_CONSUMER_MOVER: &'static str = "the mover Job";

/// How the web server is called where its ServiceAccount is missing.
pub const WI_CONSUMER_SERVER: &'static str = "the kopia web-UI server (spec.server)";

/// The text of [`stream_exec_not_allowed_message`].
pub open spec fn stream_exec_not_allowed_text(kind: Seq<char>, name: Seq<char>, ns: Seq<char>, mover_sa: Seq<char>) -> Seq<char> {
    kind
        + " `"@
        + name
        + "` uses a `stream` source, which execs a command inside a running pod in namespace `"@
        + ns
        + "`, but that namespace has not opted in. Anyone able to write a "@
        + kind
        + " in `"@
        + ns
        + "` could otherwise run arbitrary commands in any pod there without holding `pods/exec` themselves, and the minted `"@
        + mover_sa
        + "` ServiceAccount would carry that permission for the whole namespace. Fix: a cluster admin runs `kubectl annotate namespace "@
        + ns
        + " kopiur.home-operations.com/stream-exec=true`, or use a PVC source instead."@
}

/// What is said of a stream source in a namespace that has not opted in.
pub fn stream_exec_not_allowed_message(kind: &str, name: &str, ns: &str, mover_sa: &str) -> (message: String)
    ensures
        message@ == stream_exec_not_allowed_text(kind@, name@, ns@, mover_sa@),
{
    let mut message = kind.to_owned();
    message.append(" `");
    message.append(name);
    message.append("` uses a `stream` source, which execs a command inside a running pod in namespace `");
    message.append(ns);
    message.append("`, but that namespace has not opted in. Anyone able to write a ");
    message.append(kind);
    message.append(" in `");
    message.append(ns);
    message.append("` could otherwise run arbitrary commands in any pod there without holding `pods/exec` themselves, and the minted `");
    message.append(mover_sa);
    message.append("` ServiceAccount would carry that permission for the whole namespace. Fix: a cluster admin runs `kubectl annotate namespace ");
    message.append(ns);
    message.append(" kopiur.home-operations.com/stream-exec=true`, or use a PVC source instead.");
    message
}

/// The text of [`privileged_mover_message`].
pub open spec fn privileged_mover_text(kind: Seq<char>, name: Seq<char>, ns: Seq<char>, mover_sa: Seq<char>) -> Seq<char> {
    kind
        + " `"@
        + name
        + "` requests a privileged mover (e.g. `runAsUser: 0`, `privileged: true`, added capabilities, or `privilegedMode`), but namespace `"@
        + ns
        + "` has not opted in — a tenant with access to `"@
        + ns
        + "` could reuse the minted `"@
        + mover_sa
        + "` ServiceAccount at that privilege. Fix: a cluster admin runs `kubectl annotate namespace "@
        + ns
        + " kopiur.home-operations.com/privileged-movers=true`, or remove the elevated securityContext/privilegedMode from the "@
        + kind
        + " `spec.mover`."@
}

/// What is said of a privileged mover in a namespace that has not opted in.
pub fn privileged_mover_message(kind: &str, name: &str, ns: &str, mover_sa: &str) -> (message: String)
    ensures
        message@ == privileged_mover_text(kind@, name@, ns@, mover_sa@),
{
    let mut message = kind.to_owned();
    message.append(" `");
    message.append(name);
    message.append("` requests a privileged mover (e.g. `runAsUser: 0`, `privileged: true`, added capabilities, or `privilegedMode`), but namespace `");
    message.append(ns);
    message.append("` has not opted in — a tenant with access to `");
    message.append(ns);
    message.append("` could reuse the minted `");
    message.append(mover_sa);
    message.append("` ServiceAccount at that privilege. Fix: a cluster admin runs `kubectl annotate namespace ");
    message.append(ns);
    message.append(" kopiur.home-operations.com/privileged-movers=true`, or remove the elevated securityContext/privilegedMode from the ");
    message.append(kind);
    message.append(" `spec.mover`.");
    message
}

/// The text of [`missing_account_with`].
pub open spec fn missing_account_text(sa: Seq<char>, ns: Seq<char>, consumer: Seq<char>, annotation: Seq<char>) -> Seq<char> {
    "backend auth.workloadIdentity names ServiceAccount `"@
        + sa
        + "`, but it does not exist in namespace `"@
        + ns
        + "` where "@
        + consumer
        + " runs — Kopiur never creates it (its cloud-federation annotations are your contract with the cloud's identity webhook). Fix: create ServiceAccount `"@
        + sa
        + "` in `"@
        + ns
        + "` with the federation binding ("@
        + annotation
        + ")."@
}

/// Words a missing ServiceAccount around the hint for its cloud.
fn missing_account_with(sa: &str, ns: &str, consumer: &str, annotation: &str) -> (message: String)
    ensures
        message@ == missing_account_text(sa@, ns@, consumer@, annotation@),
{
    let mut message = "backend auth.workloadIdentity names ServiceAccount `".to_owned();
    message.append(sa);
    message.append("`, but it does not exist in namespace `");
    message.append(ns);
    message.append("` where ");
    message.append(consumer);
    message.append(" runs — Kopiur never creates it (its cloud-federation annotations are your contract with the cloud's identity webhook). Fix: create ServiceAccount `");
    message.append(sa);
    message.append("` in `");
    message.append(ns);
    message.append("` with the federation binding (");
    message.append(annotation);
    message.append(").");
    message
}

/// What a cloud's federation needs on a ServiceAccount.
pub open spec fn cloud_hint(cloud: WorkloadIdentityCloud) -> Seq<char> {
    match cloud {
        WorkloadIdentityCloud::S3 => "eks.amazonaws.com/role-arn (IRSA) or an EKS Pod Identity association"@,
        WorkloadIdentityCloud::Azure => "azure.workload.identity/client-id"@,
        WorkloadIdentityCloud::Gcs => "iam.gke.io/gcp-service-account"@,
    }
}

/// What is said of a federated ServiceAccount that is not there.
pub fn missing_workload_identity_sa_message(
    sa: &str,
    ns: &str,
    cloud: WorkloadIdentityCloud,
    consumer: &str,
) -> (message: String)
    ensures
        message@ == missing_account_text(sa@, ns@, consumer@, cloud_hint(cloud)),
{
    let annotation = match cloud {
        WorkloadIdentityCloud::S3 => "eks.amazonaws.com/role-arn (IRSA) or an EKS Pod Identity association",
        WorkloadIdentityCloud::Azure => "azure.workload.identity/client-id",
        WorkloadIdentityCloud::Gcs => "iam.gke.io/gcp-service-account",
    };
    missing_account_with(sa, ns, consumer, annotation)
}

/// The labels of what the controller mints for movers.
pub open spec fn mover_label_map() -> Map<Seq<char>, Seq<char>> {
    Map::empty().insert(MANAGED_BY_LABEL@, MANAGED_BY_VALUE@).insert(COMPONENT_LABEL@, "mover"@)
}

/// The labels of what the controller mints for movers.
pub fn mover_managed_labels() -> (labels: Labels)
    ensures
        labels.wf(),
        labels@ == mover_label_map(),
{
    let mut labels = Labels::new();
    labels.insert(MANAGED_BY_LABEL, MANAGED_BY_VALUE);
    labels.insert(COMPONENT_LABEL, "mover");
    labels
}

/// A ServiceAccount.
pub struct ServiceAccount {
    pub metadata: ObjectMeta,
}

/// The role that a binding grants.
pub struct RoleRef {
    pub api_group: String,
    pub kind: String,
    pub name: String,
}

/// Whom a binding grants a role.
pub struct Subject {
    pub kind: String,
    pub name: String,
    pub namespace: Option<String>,
    pub api_group: Option<String>,
}

/// A role, granted.
pub struct RoleBinding {
    pub metadata: ObjectMeta,
    pub role_ref: RoleRef,
    pub subjects: Vec<Subject>,
}

/// Whether metadata are those of an object minted for movers.
pub open spec fn minted(meta: ObjectMeta, ns: Seq<char>, name: Seq<char>) -> bool {
    &&& meta.name@ == name
    &&& meta.namespace@ == ns
    &&& meta.labels is Some
    &&& meta.labels->0.wf()
    &&& meta.labels->0@ == mover_label_map()
    &&& meta.owner is None
}

/// Whether a binding grants one ServiceAccount one role in its namespace.
pub open spec fn grants(
    rb: RoleBinding,
    name: Seq<char>,
    ns: Seq<char>,
    sa: Seq<char>,
    role_kind: Seq<char>,
    role_name: Seq<char>,
) -> bool {
    &&& minted(rb.metadata, ns, name)
    &&& rb.role_ref.api_group@ == "rbac.authorization.k8s.io"@
    &&& rb.role_ref.kind@ == role_kind
    &&& rb.role_ref.name@ == role_name
    &&& rb.subjects@.len() == 1
    &&& rb.subjects@[0].kind@ == "ServiceAccount"@
    &&& rb.subjects@[0].name@ == sa
    &&& opt_text(rb.subjects@[0].namespace) == Some(ns)
    &&& rb.subjects@[0].api_group is None
}

/// The ServiceAccount of a mover.
pub fn build_mover_service_account(ns: &str, name: &str) -> (sa: ServiceAccount)
    ensures
        minted(sa.metadata, ns@, name@),
{
    ServiceAccount {
        metadata: ObjectMeta {
            name: name.to_owned(),
            namespace: ns.to_owned(),
            labels: Some(mover_managed_labels()),
            owner: None,
        },
    }
}

fn named_binding(name: String, ns: &str, sa_name: &str, role_kind: &str, role_name: &str) -> (rb:
    RoleBinding)
    ensures
        grants(rb, name@, ns@, sa_name@, role_kind@, role_name@),
{
    let mut subjects: Vec<Subject> = Vec::new();
    subjects.push(
        Subject {
            kind: "ServiceAccount".to_owned(),
            name: sa_name.to_owned(),
            namespace: Some(ns.to_owned()),
            api_group: None,
        },
    );
    RoleBinding {
        metadata: ObjectMeta {
            name,
            namespace: ns.to_owned(),
            labels: Some(mover_managed_labels()),
            owner: None,
        },
        role_ref: RoleRef {
            api_group: "rbac.authorization.k8s.io".to_owned(),
            kind: role_kind.to_owned(),
            name: role_name.to_owned(),
        },
        subjects,
    }
}

/// The binding of a minted ServiceAccount, named after it.
pub fn build_mover_rolebinding(ns: &str, sa_name: &str, role_kind: &str, role_name: &str) -> (rb:
    RoleBinding)
    ensures
        grants(rb, sa_name@, ns@, sa_name@, role_kind@, role_name@),
{
    named_binding(sa_name.to_owned(), ns, sa_name, role_kind, role_name)
}

/// The binding of a federated ServiceAccount, under a name of its own.
pub fn build_wi_rolebinding(ns: &str, wi_sa: &str, role_kind: &str, role_name: &str) -> (rb:
    RoleBinding)
    ensures
        grants(
            rb,
            binding_name(WI_BINDING_PREFIX@, wi_sa@),
            ns@,
            wi_sa@,
            role_kind@,
            role_name@,
        ),
{
    named_binding(wi_rolebinding_name(wi_sa), ns, wi_sa, role_kind, role_name)
}

/// Who a mover runs as.
pub struct MoverRunIdentity {
    pub service_account: Option<String>,
    pub azure_workload_identity: bool,
}

impl MoverRunIdentity {
    /// Adds the labels that a pod of this identity needs.
    pub fn decorate_labels(&self, labels: &mut Labels)
        requires
            old(labels).wf(),
        ensures
            final(labels).wf(),
            final(labels)@ == (if self.azure_workload_identity {
                old(labels)@.insert(AZURE_WORKLOAD_IDENTITY_LABEL@, "true"@)
            } else {
                old(labels)@
            }),
    {
        if self.azure_workload_identity {
            labels.insert(AZURE_WORKLOAD_IDENTITY_LABEL, "true");
        }
    }
}

/// The position of the first backend that federates, or the length where none
/// does.
pub open spec fn first_federated(backends: Seq<Backend>) -> int
    decreases backends.len(),
{
    if backends.len() == 0 {
        0
    } else if backends[0].workload_identity is Some {
        0
    } else {
        1 + first_federated(backends.skip(1))
    }
}

/// Whether some backend federates with Azure.
pub open spec fn any_azure(backends: Seq<Backend>) -> bool {
    exists|k: int|
        0 <= k < backends.len() && (#[trigger] backends[k]).workload_identity is Some
            && backends[k].workload_identity->0.cloud == WorkloadIdentityCloud::Azure
}

fn find_federated(backends: &Vec<Backend>) -> (found: Option<usize>)
    ensures
        match found {
            Some(i) => i < backends@.len() && i == first_federated(backends@)
                && backends@[i as int].workload_identity is Some,
            None => first_federated(backends@) == backends@.len(),
        },
{
    let mut i: usize = 0;
    proof {
        assert(backends@.skip(0) =~= backends@);
    }
    while i < backends.len()
        invariant
            i <= backends.len(),
            first_federated(backends@) == i + first_federated(backends@.skip(i as int)),
        decreases backends.len() - i,
    {
        proof {
            assert(backends@.skip(i as int)[0] == backends@[i as int]);
            assert(backends@.skip(i as int).skip(1) =~= backends@.skip(i + 1));
        }
        if backends[i].workload_identity.is_some() {
            return Some(i);
        }
        i = i + 1;
    }
    None
}

fn has_azure(backends: &Vec<Backend>) -> (azure: bool)
    ensures
        azure == any_azure(backends@),
{
    let mut i: usize = 0;
    while i < backends.len()
        invariant
            i <= backends.len(),
            forall|k: int|
                0 <= k < i ==> !((#[trigger] backends@[k]).workload_identity is Some
                    && backends@[k].workload_identity->0.cloud == WorkloadIdentityCloud::Azure),
        decreases backends.len() - i,
    {
        if let Some(w) = &backends[i].workload_identity {
            if w.cloud == WorkloadIdentityCloud::Azure {
                return true;
            }
        }
        i = i + 1;
    }
    false
}

/// The ServiceAccount that a pod over these backends has to run as: that of
/// the first backend that federates.
pub fn federated_account(backends: &Vec<Backend>) -> (account: Option<String>)
    ensures
        account is Some <==> first_federated(backends@) < backends@.len(),
        account is Some ==> account->0@ == backends@[first_federated(
            backends@,
        )].workload_identity->0.service_account_name@,
{
    match find_federated(backends) {
        Some(i) => match &backends[i].workload_identity {
            Some(w) => Some(w.service_account_name.clone()),
            None => None,
        },
        None => None,
    }
}

/// Who a mover runs as, with what has to be applied for it.
pub struct IdentityGrant {
    pub identity: MoverRunIdentity,
    pub service_account: Option<ServiceAccount>,
    pub role_binding: Option<RoleBinding>,
}

/// Whether a grant runs a mover as the user's own ServiceAccount, bound under
/// a name of its own and never applied.
pub open spec fn runs_federated(
    grant: IdentityGrant,
    backends: Seq<Backend>,
    ns: Seq<char>,
    prefix: Seq<char>,
    role_kind: Seq<char>,
    role_name: Seq<char>,
) -> bool {
    let sa = backends[first_federated(backends)].workload_identity->0.service_account_name@;
    &&& opt_text(grant.identity.service_account) == Some(sa)
    &&& grant.identity.azure_workload_identity == any_azure(backends)
    &&& grant.service_account is None
    &&& grant.role_binding is Some
    &&& grants(grant.role_binding->0, binding_name(prefix, sa), ns, sa, role_kind, role_name)
}

/// Whether a grant runs a mover as a ServiceAccount that is minted and bound
/// for it.
pub open spec fn runs_minted(
    grant: IdentityGrant,
    ns: Seq<char>,
    sa: Seq<char>,
    role_kind: Seq<char>,
    role_name: Seq<char>,
) -> bool {
    &&& opt_text(grant.identity.service_account) == Some(sa)
    &&& !grant.identity.azure_workload_identity
    &&& grant.service_account is Some
    &&& minted(grant.service_account->0.metadata, ns, sa)
    &&& grant.role_binding is Some
    &&& grants(grant.role_binding->0, sa, ns, sa, role_kind, role_name)
}

/// What is said where the first federated ServiceAccount is not there.
pub open spec fn missing_account(
    backends: Seq<Backend>,
    ns: Seq<char>,
    consumer: Seq<char>,
) -> Seq<char> {
    let w = backends[first_federated(backends)].workload_identity->0;
    missing_account_text(w.service_account_name@, ns, consumer, cloud_hint(w.cloud))
}

fn federated_grant(
    ns: &str,
    backends: &Vec<Backend>,
    first: usize,
    account_exists: bool,
    prefix: &str,
    role_kind: &str,
    role_name: &str,
) -> (grant: Result<IdentityGrant, Error>)
    requires
        first == first_federated(backends@),
        first < backends@.len(),
        backends@[first as int].workload_identity is Some,
        crate::text::byte_len(prefix@) <= crate::names::MAX_OBJECT_NAME,
    ensures
        !account_exists ==> grant is Err && grant->Err_0 is MissingDependency
            && grant->Err_0.text() == missing_account(backends@, ns@, WI_CONSUMER_MOVER@),
        account_exists ==> grant is Ok && runs_federated(
            grant->Ok_0,
            backends@,
            ns@,
            prefix@,
            role_kind@,
            role_name@,
        ),
{
    match &backends[first].workload_identity {
        Some(w) => {
            if !account_exists {
                return Err(
                    Error::MissingDependency(
                        missing_workload_identity_sa_message(
                            w.service_account_name.as_str(),
                            ns,
                            w.cloud,
                            WI_CONSUMER_MOVER,
                        ),
                    ),
                );
            }
            let sa = w.service_account_name.clone();
            let rb = named_binding(
                wi_rolebinding_named(prefix, sa.as_str()),
                ns,
                sa.as_str(),
                role_kind,
                role_name,
            );
            Ok(
                IdentityGrant {
                    identity: MoverRunIdentity {
                        service_account: Some(sa),
                        azure_workload_identity: has_azure(backends),
                    },
                    service_account: None,
                    role_binding: Some(rb),
                },
            )
        },
        None => Err(Error::Invariant(String::new())),
    }
}

fn minted_grant(ns: &str, sa: String, role_kind: &str, role_name: &str) -> (grant: IdentityGrant)
    ensures
        runs_minted(grant, ns@, sa@, role_kind@, role_name@),
{
    let account = build_mover_service_account(ns, sa.as_str());
    let rb = build_mover_rolebinding(ns, sa.as_str(), role_kind, role_name);
    IdentityGrant {
        identity: MoverRunIdentity { service_account: Some(sa), azure_workload_identity: false },
        service_account: Some(account),
        role_binding: Some(rb),
    }
}

/// Decides who a mover runs as. `account_exists` answers whether the
/// ServiceAccount of [`federated_account`] is there.
pub fn ensure_mover_identity(
    ns: &str,
    backends: &Vec<Backend>,
    ctx_sa: Option<&str>,
    role_kind: &str,
    role_name: &str,
    account_exists: bool,
) -> (grant: Result<IdentityGrant, Error>)
    ensures
        first_federated(backends@) < backends@.len() && !account_exists ==> grant is Err
            && grant->Err_0 is MissingDependency && grant->Err_0.text() == missing_account(
            backends@,
            ns@,
            WI_CONSUMER_MOVER@,
        ),
        first_federated(backends@) < backends@.len() && account_exists ==> grant is Ok
            && runs_federated(
            grant->Ok_0,
            backends@,
            ns@,
            WI_BINDING_PREFIX@,
            role_kind@,
            role_name@,
        ),
        first_federated(backends@) == backends@.len() && ctx_sa is Some ==> grant is Ok
            && runs_minted(grant->Ok_0, ns@, ctx_sa->0@, role_kind@, role_name@),
        first_federated(backends@) == backends@.len() && ctx_sa is None ==> grant is Ok && {
            &&& grant->Ok_0.identity.service_account is None
            &&& !grant->Ok_0.identity.azure_workload_identity
            &&& grant->Ok_0.service_account is None
            &&& grant->Ok_0.role_binding is None
        },
{
    proof {
        prefixes_are_short();
    }
    match find_federated(backends) {
        Some(first) => federated_grant(
            ns,
            backends,
            first,
            account_exists,
            WI_BINDING_PREFIX,
            role_kind,
            role_name,
        ),
        None => match ctx_sa {
            Some(sa) => Ok(minted_grant(ns, sa.to_owned(), role_kind, role_name)),
            None => Ok(
                IdentityGrant {
                    identity: MoverRunIdentity {
                        service_account: None,
                        azure_workload_identity: false,
                    },
                    service_account: None,
                    role_binding: None,
                },
            ),
        },
    }
}

fn dedicated_identity(
    ns: &str,
    backends: &Vec<Backend>,
    dedicated: String,
    prefix: &str,
    role_kind: &str,
    account_exists: bool,
) -> (grant: Result<IdentityGrant, Error>)
    requires
        crate::text::byte_len(prefix@) <= crate::names::MAX_OBJECT_NAME,
    ensures
        first_federated(backends@) < backends@.len() && !account_exists ==> grant is Err
            && grant->Err_0 is MissingDependency && grant->Err_0.text() == missing_account(
            backends@,
            ns@,
            WI_CONSUMER_MOVER@,
        ),
        first_federated(backends@) < backends@.len() && account_exists ==> grant is Ok
            && runs_federated(
            grant->Ok_0,
            backends@,
            ns@,
            prefix@,
            role_kind@,
            dedicated@,
        ),
        first_federated(backends@) == backends@.len() ==> grant is Ok && runs_minted(
            grant->Ok_0,
            ns@,
            dedicated@,
            role_kind@,
            dedicated@,
        ),
{
    match find_federated(backends) {
        Some(first) => federated_grant(
            ns,
            backends,
            first,
            account_exists,
            prefix,
            role_kind,
            dedicated.as_str(),
        ),
        None => {
            let role = dedicated.clone();
            Ok(minted_grant(ns, dedicated, role_kind, role.as_str()))
        },
    }
}

/// Decides who a snapshot-replication mover runs as: under its dedicated role,
/// in any case.
pub fn ensure_snapshot_replication_mover_identity(
    ns: &str,
    backends: &Vec<Backend>,
    mover_role_base: &str,
    role_kind: &str,
    account_exists: bool,
) -> (grant: Result<IdentityGrant, Error>)
    ensures
        ({
            let dedicated = derived_name(
                mover_role_base@,
                "-snapshot-replication-mover"@,
                "-snapshot-replication"@,
            );
            &&& first_federated(backends@) < backends@.len() && !account_exists ==> grant is Err
                && grant->Err_0 is MissingDependency && grant->Err_0.text() == missing_account(
                backends@,
                ns@,
                WI_CONSUMER_MOVER@,
            )
            &&& first_federated(backends@) < backends@.len() && account_exists ==> grant is Ok
                && runs_federated(
                grant->Ok_0,
                backends@,
                ns@,
                SREPL_BINDING_PREFIX@,
                role_kind@,
                dedicated,
            )
            &&& first_federated(backends@) == backends@.len() ==> grant is Ok && runs_minted(
                grant->Ok_0,
                ns@,
                dedicated,
                role_kind@,
                dedicated,
            )
        }),
{
    proof {
        prefixes_are_short();
    }
    dedicated_identity(
        ns,
        backends,
        snapshot_replication_mover_name(mover_role_base),
        SREPL_BINDING_PREFIX,
        role_kind,
        account_exists,
    )
}

/// Decides who a stream mover runs as: under its dedicated role, in any case.
pub fn ensure_stream_mover_identity(
    ns: &str,
    backends: &Vec<Backend>,
    mover_role_base: &str,
    role_kind: &str,
    account_exists: bool,
) -> (grant: Result<IdentityGrant, Error>)
    ensures
        ({
            let dedicated = derived_name(mover_role_base@, "-stream-mover"@, "-stream"@);
            &&& first_federated(backends@) < backends@.len() && !account_exists ==> grant is Err
                && grant->Err_0 is MissingDependency && grant->Err_0.text() == missing_account(
                backends@,
                ns@,
                WI_CONSUMER_MOVER@,
            )
            &&& first_federated(backends@) < backends@.len() && account_exists ==> grant is Ok
                && runs_federated(
                grant->Ok_0,
                backends@,
                ns@,
                STREAM_BINDING_PREFIX@,
                role_kind@,
                dedicated,
            )
            &&& first_federated(backends@) == backends@.len() ==> grant is Ok && runs_minted(
                grant->Ok_0,
                ns@,
                dedicated,
                role_kind@,
                dedicated,
            )
        }),
{
    proof {
        prefixes_are_short();
    }
    dedicated_identity(
        ns,
        backends,
        stream_mover_name(mover_role_base),
        STREAM_BINDING_PREFIX,
        role_kind,
        account_exists,
    )
}

/// Decides who the web server runs as: the federated ServiceAccount of its
/// backend, or the configured one, minted; in no case is a role bound to it.
pub fn ensure_server_identity(
    ns: &str,
    backend: &Backend,
    ctx_sa: Option<&str>,
    account_exists: bool,
) -> (grant: Result<IdentityGrant, Error>)
    ensures
        grant is Ok ==> grant->Ok_0.role_binding is None,
        backend.workload_identity is Some && !account_exists ==> grant is Err
            && grant->Err_0 is MissingDependency && grant->Err_0.text() == missing_account_text(
            backend.workload_identity->0.service_account_name@,
            ns@,
            WI_CONSUMER_SERVER@,
            cloud_hint(backend.workload_identity->0.cloud),
        ),
        backend.workload_identity is Some && account_exists ==> grant is Ok && {
            &&& opt_text(grant->Ok_0.identity.service_account) == Some(
                backend.workload_identity->0.service_account_name@,
            )
            &&& grant->Ok_0.identity.azure_workload_identity == (
            backend.workload_identity->0.cloud == WorkloadIdentityCloud::Azure)
            &&& grant->Ok_0.service_account is None
        },
        backend.workload_identity is None ==> grant is Ok && {
            &&& opt_text(grant->Ok_0.identity.service_account) == opt_str(ctx_sa)
            &&& !grant->Ok_0.identity.azure_workload_identity
            &&& grant->Ok_0.service_account is Some <==> ctx_sa is Some
            &&& ctx_sa is Some ==> minted(
                grant->Ok_0.service_account->0.metadata,
                ns@,
                ctx_sa->0@,
            )
        },
{
    match &backend.workload_identity {
        None => {
            let (service_account, account) = match ctx_sa {
                Some(sa) => (Some(sa.to_owned()), Some(build_mover_service_account(ns, sa))),
                None => (None, None),
            };
            Ok(
                IdentityGrant {
                    identity: MoverRunIdentity { service_account, azure_workload_identity: false },
                    service_account: account,
                    role_binding: None,
                },
            )
        },
        Some(w) => {
            if !account_exists {
                return Err(
                    Error::MissingDependency(
                        missing_workload_identity_sa_message(
                            w.service_account_name.as_str(),
                            ns,
                            w.cloud,
                            WI_CONSUMER_SERVER,
                        ),
                    ),
                );
            }
            Ok(
                IdentityGrant {
                    identity: MoverRunIdentity {
                        service_account: Some(w.service_account_name.clone()),
                        azure_workload_identity: w.cloud == WorkloadIdentityCloud::Azure,
                    },
                    service_account: None,
                    role_binding: None,
                },
            )
        },
    }
}

/// What reading a namespace came to.
pub enum NamespaceRead {
    Annotations(Labels),
    /// The controller may not read namespaces.
    Forbidden,
    Failed(String),
}

/// Whether a namespace carries an opt-in: it says "true", or it cannot be read
/// at all because the controller is confined to chosen namespaces.
pub open spec fn opted_in(read: NamespaceRead, annotation: Seq<char>) -> bool {
    match read {
        NamespaceRead::Annotations(a) => a@.dom().contains(annotation) && a@[annotation]
            == "true"@,
        NamespaceRead::Forbidden => true,
        NamespaceRead::Failed(_) => false,
    }
}

fn namespace_allows(read: &NamespaceRead, annotation: &str) -> (allows: Result<bool, Error>)
    requires
        *read is Annotations ==> read->Annotations_0.wf(),
    ensures
        allows is Err <==> *read is Failed,
        allows is Ok ==> allows->Ok_0 == opted_in(*read, annotation@),
        allows is Err ==> allows->Err_0 is Kube && allows->Err_0.text() == read->Failed_0@,
{
    match read {
        NamespaceRead::Annotations(a) => Ok(is_text(&a.get(annotation), "true")),
        NamespaceRead::Forbidden => Ok(true),
        NamespaceRead::Failed(why) => Err(Error::Kube(why.clone())),
    }
}

/// Whether a namespace allows privileged movers.
pub fn namespace_allows_privileged_movers(read: &NamespaceRead) -> (allows: Result<bool, Error>)
    requires
        *read is Annotations ==> read->Annotations_0.wf(),
    ensures
        allows is Err <==> *read is Failed,
        allows is Ok ==> allows->Ok_0 == opted_in(*read, PRIVILEGED_MOVERS_ANNOTATION@),
        allows is Err ==> allows->Err_0 is Kube && allows->Err_0.text() == read->Failed_0@,
{
    namespace_allows(read, PRIVILEGED_MOVERS_ANNOTATION)
}

/// Whether a namespace allows stream sources.
pub fn namespace_allows_stream_exec(read: &NamespaceRead) -> (allows: Result<bool, Error>)
    requires
        *read is Annotations ==> read->Annotations_0.wf(),
    ensures
        allows is Err <==> *read is Failed,
        allows is Ok ==> allows->Ok_0 == opted_in(*read, STREAM_EXEC_ANNOTATION@),
        allows is Err ==> allows->Err_0 is Kube && allows->Err_0.text() == read->Failed_0@,
{
    namespace_allows(read, STREAM_EXEC_ANNOTATION)
}

/// What is left to do about a Job of the former name.
#[derive(Clone, Copy, Debug, PartialEq, Eq, Structural)]
pub enum LegacyReapStep {
    StartDelete,
    AwaitGone,
    Clear,
}

/// A Job, as far as its ownership and its deletion go.
pub struct LegacyJob {
    pub owner_references: Vec<crate::labels::OwnerReference>,
    pub deleting: bool,
}

/// Whether a Job is controlled by the object of a UID.
pub open spec fn controlled_by(job: LegacyJob, owner_uid: Seq<char>) -> bool {
    exists|k: int|
        0 <= k < job.owner_references@.len() && (#[trigger] job.owner_references@[k]).uid@
            == owner_uid && job.owner_references@[k].controller == Some(true)
}

fn is_controlled_by(job: &LegacyJob, owner_uid: &str) -> (yes: bool)
    ensures
        yes == controlled_by(*job, owner_uid@),
{
    let refs = &job.owner_references;
    let mut i: usize = 0;
    while i < refs.len()
        invariant
            refs@ == job.owner_references@,
            i <= refs.len(),
            forall|k: int|
                0 <= k < i ==> !((#[trigger] job.owner_references@[k]).uid@ == owner_uid@
                    && job.owner_references@[k].controller == Some(true)),
        decreases refs.len() - i,
    {
        let controls = match refs[i].controller {
            Some(c) => c,
            None => false,
        };
        if controls && crate::text::same_text(refs[i].uid.as_str(), owner_uid) {
            assert(job.owner_references@[i as int].controller == Some(true));
            return true;
        }
        i = i + 1;
    }
    false
}

/// What is left to do about a Job of the former name.
pub open spec fn reap_step(legacy: Option<LegacyJob>, owner_uid: Seq<char>) -> LegacyReapStep {
    match legacy {
        None => LegacyReapStep::Clear,
        Some(job) => if !controlled_by(job, owner_uid) {
            LegacyReapStep::Clear
        } else if job.deleting {
            LegacyReapStep::AwaitGone
        } else {
            LegacyReapStep::StartDelete
        },
    }
}

/// Decides what is left to do about a Job of the former name: one that the
/// repository does not control is none of its business.
pub fn legacy_reap_step(legacy: &Option<LegacyJob>, owner_uid: &str) -> (step: LegacyReapStep)
    ensures
        step == reap_step(*legacy, owner_uid@),
{
    match legacy {
        None => LegacyReapStep::Clear,
        Some(job) => {
            if !is_controlled_by(job, owner_uid) {
                LegacyReapStep::Clear
            } else if job.deleting {
                LegacyReapStep::AwaitGone
            } else {
                LegacyReapStep::StartDelete
            }
        },
    }
}

/// Whether the successor of a former Job may be created.
pub fn legacy_bootstrap_cleared(step: LegacyReapStep) -> (cleared: bool)
    ensures
        cleared == (step == LegacyReapStep::Clear),
{
    match step {
        LegacyReapStep::Clear => true,
        _ => false,
    }
}

/// No overlap: while a Job that the repository controls is visible, deleting
/// or not, its successor is not created.
pub proof fn visible_own_job_blocks(job: LegacyJob, owner_uid: Seq<char>)
    requires
        controlled_by(job, owner_uid),
    ensures
        reap_step(Some(job), owner_uid) != LegacyReapStep::Clear,
{
}

/// No collateral damage: a Job that the repository does not control is neither
/// deleted nor waited for.
pub proof fn foreign_job_is_left_alone(job: LegacyJob, owner_uid: Seq<char>)
    requires
        !controlled_by(job, owner_uid),
    ensures
        reap_step(Some(job), owner_uid) == LegacyReapStep::Clear,
{
}

/// The backend whose ServiceAccount a pod runs as is the first that federates,
/// and there is none exactly where none federates.
pub proof fn first_federated_backend_decides(backends: Seq<Backend>)
    ensures
        ({
            let at = first_federated(backends);
            &&& 0 <= at <= backends.len()
            &&& at < backends.len() ==> backends[at].workload_identity is Some
            &&& forall|k: int| 0 <= k < at ==> (#[trigger] backends[k]).workload_identity is None
        }),
    decreases backends.len(),
{
    if backends.len() > 0 && backends[0].workload_identity is None {
        let rest = backends.skip(1);
        first_federated_backend_decides(rest);
        assert forall|k: int| 0 <= k < first_federated(backends) implies (#[trigger] backends[k]).workload_identity
            is None by {
            if k > 0 {
                assert(backends[k] == rest[k - 1]);
            }
        }
        if first_federated(backends) < backends.len() {
            assert(backends[first_federated(backends)] == rest[first_federated(rest)]);
        }
    }
}

/// A pod over a backend that federates runs as the user's own ServiceAccount:
/// the controller binds it to the mover's role in the pod's namespace, never
/// mints it, and marks the pod where a backend federates with Azure.
pub proof fn federated_account_is_bound_and_never_minted(
    grant: IdentityGrant,
    backends: Seq<Backend>,
    ns: Seq<char>,
    prefix: Seq<char>,
    role_kind: Seq<char>,
    role_name: Seq<char>,
)
    requires
        first_federated(backends) < backends.len(),
        runs_federated(grant, backends, ns, prefix, role_kind, role_name),
    ensures
        ({
            let w = backends[first_federated(backends)].workload_identity->0;
            let rb = grant.role_binding->0;
            &&& grant.identity.service_account is Some
            &&& grant.identity.service_account->0@ == w.service_account_name@
            &&& grant.service_account is None
            &&& grant.role_binding is Some
            &&& rb.metadata.name@ == binding_name(prefix, w.service_account_name@)
            &&& rb.metadata.namespace@ == ns
            &&& rb.role_ref.kind@ == role_kind && rb.role_ref.name@ == role_name
            &&& rb.subjects@.len() == 1
            &&& rb.subjects@[0].kind@ == "ServiceAccount"@
            &&& rb.subjects@[0].name@ == w.service_account_name@
            &&& rb.subjects@[0].namespace is Some && rb.subjects@[0].namespace->0@ == ns
            &&& grant.identity.azure_workload_identity <==> exists|k: int|
                0 <= k < backends.len() && (#[trigger] backends[k]).workload_identity is Some
                    && backends[k].workload_identity->0.cloud == WorkloadIdentityCloud::Azure
        }),
{
}

/// A pod over backends that do not federate runs as the controller's own
/// ServiceAccount, minted and bound to the mover's role in its namespace.
pub proof fn minted_account_is_bound_to_its_role(
    grant: IdentityGrant,
    ns: Seq<char>,
    sa: Seq<char>,
    role_kind: Seq<char>,
    role_name: Seq<char>,
)
    requires
        runs_minted(grant, ns, sa, role_kind, role_name),
    ensures
        ({
            let account = grant.service_account->0;
            let rb = grant.role_binding->0;
            &&& grant.identity.service_account is Some && grant.identity.service_account->0@ == sa
            &&& !grant.identity.azure_workload_identity
            &&& grant.service_account is Some && grant.role_binding is Some
            &&& account.metadata.name@ == sa && account.metadata.namespace@ == ns
            &&& account.metadata.labels is Some && account.metadata.owner is None
            &&& rb.metadata.name@ == sa && rb.metadata.namespace@ == ns
            &&& rb.role_ref.api_group@ == "rbac.authorization.k8s.io"@
            &&& rb.role_ref.kind@ == role_kind && rb.role_ref.name@ == role_name
            &&& rb.subjects@.len() == 1
            &&& rb.subjects@[0].kind@ == "ServiceAccount"@ && rb.subjects@[0].name@ == sa
            &&& rb.subjects@[0].namespace is Some && rb.subjects@[0].namespace->0@ == ns
            &&& rb.subjects@[0].api_group is None
        }),
{
}

/// What is minted for movers bears the mark of being managed and of its part,
/// and no other label.
pub proof fn minted_objects_bear_two_labels()
    ensures
        mover_label_map().dom() =~= set![MANAGED_BY_LABEL@, COMPONENT_LABEL@],
        mover_label_map()[MANAGED_BY_LABEL@] == MANAGED_BY_VALUE@,
        mover_label_map()[COMPONENT_LABEL@] == "mover"@,
{
    reveal_strlit("app.kubernetes.io/managed-by");
    reveal_strlit("app.kubernetes.io/component");
    assert(MANAGED_BY_LABEL@[18] == 'm');
    assert(COMPONENT_LABEL@[18] == 'c');
}

/// A namespace opts in by saying "true" and in no other way; only where the
/// controller may not read namespaces at all is it taken to have done so, and
/// never where reading it failed.
pub proof fn namespace_opts_in_by_saying_true(read: NamespaceRead, annotation: Seq<char>)
    ensures
        read matches NamespaceRead::Annotations(a) ==> (opted_in(read, annotation) <==> a@.contains_key(
            annotation,
        ) && a@[annotation] == "true"@),
        read is Forbidden ==> opted_in(read, annotation),
        read is Failed ==> !opted_in(read, annotation),
{
}

/// A Job of the former name is deleted where the repository controls it, waited
/// for while it is going, and none of its business otherwise.
pub proof fn former_job_is_reaped_by_its_owner(legacy: Option<LegacyJob>, owner_uid: Seq<char>)
    ensures
        ({
            let step = reap_step(legacy, owner_uid);
            let own = legacy is Some && exists|k: int|
                0 <= k < legacy->0.owner_references@.len()
                    && (#[trigger] legacy->0.owner_references@[k]).uid@ == owner_uid
                    && legacy->0.owner_references@[k].controller == Some(true);
            &&& step == LegacyReapStep::StartDelete <==> own && !legacy->0.deleting
            &&& step == LegacyReapStep::AwaitGone <==> own && legacy->0.deleting
            &&& step == LegacyReapStep::Clear <==> !own
        }),
{
}

/// The hint of each cloud is its own.
pub proof fn clouds_have_their_own_hints(one: WorkloadIdentityCloud, other: WorkloadIdentityCloud)
    ensures
        cloud_hint(one) == cloud_hint(other) ==> one == other,
        cloud_hint(WorkloadIdentityCloud::Azure) == "azure.workload.identity/client-id"@,
        cloud_hint(WorkloadIdentityCloud::Gcs) == "iam.gke.io/gcp-service-account"@,
{
    reveal_strlit("eks.amazonaws.com/role-arn (IRSA) or an EKS Pod Identity association");
    reveal_strlit("azure.workload.identity/client-id");
    reveal_strlit("iam.gke.io/gcp-service-account");
    assert(cloud_hint(WorkloadIdentityCloud::S3)[0] == 'e');
    assert(cloud_hint(WorkloadIdentityCloud::Azure)[0] == 'a');
    assert(cloud_hint(WorkloadIdentityCloud::Gcs)[0] == 'i');
}

/// A stream source that was not allowed is told with what asked for it, its
/// namespace and its ServiceAccount.
pub proof fn stream_exec_not_allowed_text_names_all(
    kind: Seq<char>,
    name: Seq<char>,
    ns: Seq<char>,
    mover_sa: Seq<char>,
)
    ensures
        mentions(stream_exec_not_allowed_text(kind, name, ns, mover_sa), kind + " `"@),
        mentions(stream_exec_not_allowed_text(kind, name, ns, mover_sa), " `"@ + name),
        mentions(stream_exec_not_allowed_text(kind, name, ns, mover_sa), "` uses a `stream` source, which execs a command inside a running pod in namespace `"@ + ns),
        mentions(stream_exec_not_allowed_text(kind, name, ns, mover_sa), "` could otherwise run arbitrary commands in any pod there without holding `pods/exec` themselves, and the minted `"@ + mover_sa),
{
    let text = stream_exec_not_allowed_text(kind, name, ns, mover_sa);
    let head = Seq::<char>::empty();
    let part = kind + " `"@;
    let tail = text.skip((head + part).len() as int);
    assert(text =~= head + part + tail);
    part_is_mentioned(head, part, tail);
    let head = kind;
    let part = " `"@ + name;
    let tail = text.skip((head + part).len() as int);
    assert(text =~= head + part + tail);
    part_is_mentioned(head, part, tail);
    let head = kind + " `"@ + name;
    let part = "` uses a `stream` source, which execs a command inside a running pod in namespace `"@ + ns;
    let tail = text.skip((head + part).len() as int);
    assert(text =~= head + part + tail);
    part_is_mentioned(head, part, tail);
    let head = kind + " `"@ + name + "` uses a `stream` source, which execs a command inside a running pod in namespace `"@ + ns + "`, but that namespace has not opted in. Anyone able to write a "@ + kind + " in `"@ + ns;
    let part = "` could otherwise run arbitrary commands in any pod there without holding `pods/exec` themselves, and the minted `"@ + mover_sa;
    let tail = text.skip((head + part).len() as int);
    assert(text =~= head + part + tail);
    part_is_mentioned(head, part, tail);
}

/// A privileged mover that was not allowed is told with what asked for it, its
/// namespace and its ServiceAccount.
pub proof fn privileged_mover_text_names_all(
    kind: Seq<char>,
    name: Seq<char>,
    ns: Seq<char>,
    mover_sa: Seq<char>,
)
    ensures
        mentions(privileged_mover_text(kind, name, ns, mover_sa), kind + " `"@),
        mentions(privileged_mover_text(kind, name, ns, mover_sa), " `"@ + name),
        mentions(privileged_mover_text(kind, name, ns, mover_sa), "` requests a privileged mover (e.g. `runAsUser: 0`, `privileged: true`, added capabilities, or `privilegedMode`), but namespace `"@ + ns),
        mentions(privileged_mover_text(kind, name, ns, mover_sa), "` could reuse the minted `"@ + mover_sa),
{
    let text = privileged_mover_text(kind, name, ns, mover_sa);
    let head = Seq::<char>::empty();
    let part = kind + " `"@;
    let tail = text.skip((head + part).len() as int);
    assert(text =~= head + part + tail);
    part_is_mentioned(head, part, tail);
    let head = kind;
    let part = " `"@ + name;
    let tail = text.skip((head + part).len() as int);
    assert(text =~= head + part + tail);
    part_is_mentioned(head, part, tail);
    let head = kind + " `"@ + name;
    let part = "` requests a privileged mover (e.g. `runAsUser: 0`, `privileged: true`, added capabilities, or `privilegedMode`), but namespace `"@ + ns;
    let tail = text.skip((head + part).len() as int);
    assert(text =~= head + part + tail);
    part_is_mentioned(head, part, tail);
    let head = kind + " `"@ + name + "` requests a privileged mover (e.g. `runAsUser: 0`, `privileged: true`, added capabilities, or `privilegedMode`), but namespace `"@ + ns + "` has not opted in — a tenant with access to `"@ + ns;
    let part = "` could reuse the minted `"@ + mover_sa;
    let tail = text.skip((head + part).len() as int);
    assert(text =~= head + part + tail);
    part_is_mentioned(head, part, tail);
}

/// A ServiceAccount that is missing is told with its name, its namespace, what
/// needs it and how it is bound.
pub proof fn missing_account_text_names_all(
    sa: Seq<char>,
    ns: Seq<char>,
    consumer: Seq<char>,
    annotation: Seq<char>,
)
    ensures
        mentions(missing_account_text(sa, ns, consumer, annotation), "backend auth.workloadIdentity names ServiceAccount `"@ + sa),
        mentions(missing_account_text(sa, ns, consumer, annotation), "`, but it does not exist in namespace `"@ + ns),
        mentions(missing_account_text(sa, ns, consumer, annotation), "` where "@ + consumer),
        mentions(missing_account_text(sa, ns, consumer, annotation), "` with the federation binding ("@ + annotation),
{
    let text = missing_account_text(sa, ns, consumer, annotation);
    let head = Seq::<char>::empty();
    let part = "backend auth.workloadIdentity names ServiceAccount `"@ + sa;
    let tail = text.skip((head + part).len() as int);
    assert(text =~= head + part + tail);
    part_is_mentioned(head, part, tail);
    let head = "backend auth.workloadIdentity names ServiceAccount `"@ + sa;
    let part = "`, but it does not exist in namespace `"@ + ns;
    let tail = text.skip((head + part).len() as int);
    assert(text =~= head + part + tail);
    part_is_mentioned(head, part, tail);
    let head = "backend auth.workloadIdentity names ServiceAccount `"@ + sa + "`, but it does not exist in namespace `"@ + ns;
    let part = "` where "@ + consumer;
    let tail = text.skip((head + part).len() as int);
    assert(text =~= head + part + tail);
    part_is_mentioned(head, part, tail);
    let head = "backend auth.workloadIdentity names ServiceAccount `"@ + sa + "`, but it does not exist in namespace `"@ + ns + "` where "@ + consumer + " runs — Kopiur never creates it (its cloud-federation annotations are your contract with the cloud's identity webhook). Fix: create ServiceAccount `"@ + sa + "` in `"@ + ns;
    let part = "` with the federation binding ("@ + annotation;
    let tail = text.skip((head + part).len() as int);
    assert(text =~= head + part + tail);
    part_is_mentioned(head, part, tail);
}

} // verus!
