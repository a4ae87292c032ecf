//! The recipe layer of a mover's security contexts, and how it was arrived at.
use crate::error::{Error, ErrorView};
use crate::inherit::{
    inherited_from_consumer, inherited_from_pods, inherited_security_context_from_pods,
    pvc_consumer_security_context_from_pods, source_view, InheritSource, InheritSourceView,
};
use crate::inherit_messages::{
    empty_selector_message, empty_selector_text, no_recorded_identity_message,
    no_recorded_identity_text, no_recorded_source_message, no_recorded_source_text,
    no_source_claim_message, no_source_claim_text,
};
use crate::pods::Pod;
use crate::security::{
    container_view, copy_container, copy_pod, effective_run_as_user, effective_user,
    identity_pinned, merge_context_pair, merge_keeps_the_highest_identity, merged_pair,
    pair_view, pinned_user, pod_view, ContainerContextView, InheritedContexts, PodContextView,
    PodSecurityContext, SecurityContext,
};
use crate::selector::{label_selector_to_string, selector_query, LabelSelector};
use crate::text::{opt_str, opt_text, same_text};
use vstd::prelude::*;

verus! {

/// Whose identity a recipe asks for.
pub enum InheritSecurityContextFrom {
    /// That of a pod that a selector finds.
    WorkloadSelector { pod_selector: LabelSelector, container: Option<String> },
    /// That of the pod that consumes the source claim.
    PvcConsumer { container: Option<String> },
    /// That which the snapshot recorded.
    Snapshot,
}

/// What a recipe says of its mover's contexts.
pub struct MoverSpec {
    pub security_context: Option<SecurityContext>,
    pub pod_security_context: Option<PodSecurityContext>,
    pub inherit_security_context_from: Option<InheritSecurityContextFrom>,
}

/// Which layer pinned a recorded identity.
#[derive(Clone, Copy, Debug, PartialEq, Eq, Structural)]
pub enum RecordedSrc {
    Inherited,
    Explicit,
    Defaults,
}

/// The identity that a snapshot recorded.
pub struct RecordedSnapshotMeta {
    pub src: RecordedSrc,
    pub uid: Option<i64>,
    pub gid: Option<i64>,
    pub fs_group: Option<i64>,
}

/// The snapshot that a restore takes its identity from, as `namespace/name`,
/// with what it recorded.
pub struct SnapshotRecordedSource {
    pub snapshot: String,
    pub meta: Option<RecordedSnapshotMeta>,
}

/// How the contexts were arrived at.
#[derive(Debug, PartialEq, Eq)]
pub enum InheritOutcome {
    /// The recipe asked for no identity.
    NotRequested,
    /// A live pod was read.
    Inherited {
        pod: String,
        container: Option<String>,
        uid: Option<i64>,
        pins_identity: bool,
    },
    /// No pod could be read, and the recipe's own contexts pin an identity.
    Fallback { reason: String },
    /// The snapshot's record was read.
    InheritedFromSnapshot { snapshot: String, uid: Option<i64>, src: RecordedSrc },
}

/// How the contexts were arrived at.
#[verifier::ext_equal]
pub enum OutcomeView {
    NotRequested,
    Inherited {
        pod: Seq<char>,
        container: Option<Seq<char>>,
        uid: Option<i64>,
        pins_identity: bool,
    },
    Fallback { reason: Seq<char> },
    InheritedFromSnapshot { snapshot: Seq<char>, uid: Option<i64>, src: RecordedSrc },
}

impl View for InheritOutcome {
    type V = OutcomeView;

    open spec fn view(&self) -> OutcomeView {
        match *self {
            InheritOutcome::NotRequested => OutcomeView::NotRequested,
            InheritOutcome::Inherited { pod, container, uid, pins_identity } =>
                OutcomeView::Inherited {
                pod: pod@,
                container: opt_text(container),
                uid,
                pins_identity,
            },
            InheritOutcome::Fallback { reason } => OutcomeView::Fallback { reason: reason@ },
            InheritOutcome::InheritedFromSnapshot { snapshot, uid, src } =>
                OutcomeView::InheritedFromSnapshot { snapshot: snapshot@, uid, src },
        }
    }
}

/// The recipe layer of a mover's contexts. `unfiltered_pods` holds all pods of
/// the namespace where they were listed; a list that a selector narrowed is
/// not kept, for it leaves consumers out.
pub struct ResolvedMoverSecurity {
    pub contexts: InheritedContexts,
    pub outcome: InheritOutcome,
    pub unfiltered_pods: Option<Vec<Pod>>,
}

/// The recipe layer of a mover's contexts.
#[verifier::ext_equal]
pub struct ResolvedView {
    pub contexts: (Option<ContainerContextView>, Option<PodContextView>),
    pub outcome: OutcomeView,
    pub unfiltered_pods: Option<Seq<Pod>>,
}

impl View for ResolvedMoverSecurity {
    type V = ResolvedView;

    open spec fn view(&self) -> ResolvedView {
        ResolvedView {
            contexts: pair_view(self.contexts),
            outcome: self.outcome@,
            unfiltered_pods: match self.unfiltered_pods {
                Some(p) => Some(p@),
                None => None,
            },
        }
    }
}

/// What listing pods came to.
pub enum PodsRead {
    Listed(Vec<Pod>),
    Failed(String),
}

/// Which pods have to be listed.
pub enum PodQuery {
    /// Those that a label query selects.
    Labelled(String),
    /// All of the namespace.
    All,
}

/// The query of a selector, which may not be empty.
pub fn workload_query(ns: &str, selector: &LabelSelector) -> (query: Result<String, Error>)
    ensures
        query is Err <==> selector_query(*selector) == ""@,
        query is Err ==> query->Err_0@ == ErrorView::MissingDependency(empty_selector_text(ns@)),
        query is Ok ==> query->Ok_0@ == selector_query(*selector),
{
    let text = label_selector_to_string(selector);
    if same_text(text.as_str(), "") {
        Err(Error::MissingDependency(empty_selector_message(ns)))
    } else {
        Ok(text)
    }
}

/// The claim whose consumer is read, which has to be there.
pub fn consumed_claim(source_pvc: Option<&str>) -> (claim: Result<String, Error>)
    ensures
        claim is Err <==> source_pvc is None,
        claim is Err ==> claim->Err_0@ == ErrorView::MissingDependency(no_source_claim_text()),
        claim is Ok ==> claim->Ok_0@ == source_pvc->0@,
{
    match source_pvc {
        Some(claim) => Ok(claim.to_owned()),
        None => Err(Error::MissingDependency(no_source_claim_message())),
    }
}

/// Decides which pods have to be listed before the contexts can be resolved.
pub fn pods_to_list(mover: &Option<MoverSpec>, source_pvc: Option<&str>) -> (query: Option<PodQuery>)
    ensures
        ({
            let from = match *mover {
                Some(m) => m.inherit_security_context_from,
                None => None,
            };
            match from {
                Some(InheritSecurityContextFrom::WorkloadSelector { pod_selector, .. }) => {
                    let text = selector_query(pod_selector);
                    if text == ""@ {
                        query is None
                    } else {
                        query is Some && query->0 is Labelled && query->0->Labelled_0@ == text
                    }
                },
                Some(InheritSecurityContextFrom::PvcConsumer { .. }) => if source_pvc is Some {
                    query == Some(PodQuery::All)
                } else {
                    query is None
                },
                _ => query is None,
            }
        }),
{
    match mover {
        None => None,
        Some(m) => match &m.inherit_security_context_from {
            Some(InheritSecurityContextFrom::WorkloadSelector { pod_selector, .. }) => {
                let text = label_selector_to_string(pod_selector);
                if same_text(text.as_str(), "") {
                    None
                } else {
                    Some(PodQuery::Labelled(text))
                }
            },
            Some(InheritSecurityContextFrom::PvcConsumer { .. }) => if source_pvc.is_some() {
                Some(PodQuery::All)
            } else {
                None
            },
            _ => None,
        },
    }
}

/// The contexts that a record stands for: user and group on the container, the
/// volume group on the pod.
pub open spec fn recorded_contexts(meta: RecordedSnapshotMeta) -> (
    Option<ContainerContextView>,
    Option<PodContextView>,
) {
    (
        Some(
            ContainerContextView {
                run_as_user: meta.uid,
                run_as_group: meta.gid,
                ..SecurityContext::blank()
            },
        ),
        Some(PodContextView { fs_group: meta.fs_group, ..PodSecurityContext::blank() }),
    )
}

/// What the recipe itself says.
pub open spec fn explicit_contexts(m: MoverSpec) -> (
    Option<ContainerContextView>,
    Option<PodContextView>,
) {
    (container_view(m.security_context), pod_view(m.pod_security_context))
}

/// The contexts of a restore that takes over what its snapshot recorded.
pub open spec fn resolved_recorded(
    m: MoverSpec,
    snapshot: Seq<char>,
    meta: RecordedSnapshotMeta,
) -> ResolvedView {
    ResolvedView {
        contexts: merged_pair(recorded_contexts(meta), explicit_contexts(m)),
        outcome: OutcomeView::InheritedFromSnapshot { snapshot, uid: meta.uid, src: meta.src },
        unfiltered_pods: None,
    }
}

/// Takes over what a snapshot recorded, under what the recipe says.
pub fn resolved_from_recorded(m: &MoverSpec, snapshot: &str, meta: &RecordedSnapshotMeta) -> (r:
    ResolvedMoverSecurity)
    ensures
        r@ == resolved_recorded(*m, snapshot@, *meta),
{
    let mut sc = SecurityContext::new();
    sc.run_as_user = meta.uid;
    sc.run_as_group = meta.gid;
    let mut psc = PodSecurityContext::new();
    psc.fs_group = meta.fs_group;
    assert((Some(sc@), Some(psc@)) == recorded_contexts(*meta));
    ResolvedMoverSecurity {
        contexts: merge_context_pair(
            &Some(sc),
            &Some(psc),
            &m.security_context,
            &m.pod_security_context,
        ),
        outcome: InheritOutcome::InheritedFromSnapshot {
            snapshot: snapshot.to_owned(),
            uid: meta.uid,
            src: meta.src,
        },
        unfiltered_pods: None,
    }
}

/// What reading the requested pods comes to.
pub open spec fn attempted(
    ns: Seq<char>,
    from: InheritSecurityContextFrom,
    source_pvc: Option<Seq<char>>,
    recorded: Option<SnapshotRecordedSource>,
    read: PodsRead,
) -> Result<InheritSourceView, ErrorView> {
    match from {
        InheritSecurityContextFrom::WorkloadSelector { pod_selector, container } => {
            let query = selector_query(pod_selector);
            if query == ""@ {
                Err(ErrorView::MissingDependency(empty_selector_text(ns)))
            } else {
                match read {
                    PodsRead::Failed(why) => Err(ErrorView::Kube(why@)),
                    PodsRead::Listed(pods) => inherited_from_pods(
                        pods@,
                        opt_text(container),
                        ns,
                        query,
                    ),
                }
            }
        },
        InheritSecurityContextFrom::PvcConsumer { container } => match source_pvc {
            None => Err(ErrorView::MissingDependency(no_source_claim_text())),
            Some(claim) => match read {
                PodsRead::Failed(why) => Err(ErrorView::Kube(why@)),
                PodsRead::Listed(pods) => inherited_from_consumer(
                    pods@,
                    claim,
                    ns,
                    opt_text(container),
                ),
            },
        },
        InheritSecurityContextFrom::Snapshot => match recorded {
            None => Err(ErrorView::Invariant(no_recorded_source_text(ns))),
            Some(source) => Err(
                ErrorView::MissingDependency(no_recorded_identity_text(source.snapshot@)),
            ),
        },
    }
}

/// The recipe layer where a recipe asks for an identity: the workload's under
/// the recipe's own; the recipe's own alone where nothing could be read but it
/// pins a user; else the failure.
pub open spec fn resolved_requested(
    ns: Seq<char>,
    m: MoverSpec,
    from: InheritSecurityContextFrom,
    source_pvc: Option<Seq<char>>,
    recorded: Option<SnapshotRecordedSource>,
    read: PodsRead,
) -> Result<ResolvedView, ErrorView> {
    let explicit = explicit_contexts(m);
    if from is Snapshot && recorded is Some && recorded->0.meta is Some {
        Ok(resolved_recorded(m, recorded->0.snapshot@, recorded->0.meta->0))
    } else {
        match attempted(ns, from, source_pvc, recorded, read) {
            Ok(source) => Ok(
                ResolvedView {
                    contexts: merged_pair(source.contexts, explicit),
                    outcome: OutcomeView::Inherited {
                        pod: source.pod,
                        container: source.container,
                        uid: effective_user(source.contexts.0, source.contexts.1),
                        pins_identity: identity_pinned(source.contexts.0, source.contexts.1),
                    },
                    unfiltered_pods: if from is PvcConsumer && read is Listed {
                        Some(read->Listed_0@)
                    } else {
                        None
                    },
                },
            ),
            Err(e) => if e is MissingDependency && effective_user(explicit.0, explicit.1) is Some {
                Ok(
                    ResolvedView {
                        contexts: explicit,
                        outcome: OutcomeView::Fallback { reason: e->MissingDependency_0 },
                        unfiltered_pods: None,
                    },
                )
            } else {
                Err(e)
            },
        }
    }
}

/// The recipe layer of a mover's contexts.
pub open spec fn resolved_security(
    ns: Seq<char>,
    mover: Option<MoverSpec>,
    source_pvc: Option<Seq<char>>,
    recorded: Option<SnapshotRecordedSource>,
    read: PodsRead,
) -> Result<ResolvedView, ErrorView> {
    match mover {
        None => Ok(
            ResolvedView {
                contexts: (None, None),
                outcome: OutcomeView::NotRequested,
                unfiltered_pods: None,
            },
        ),
        Some(m) => match m.inherit_security_context_from {
            None => Ok(
                ResolvedView {
                    contexts: explicit_contexts(m),
                    outcome: OutcomeView::NotRequested,
                    unfiltered_pods: None,
                },
            ),
            Some(from) => resolved_requested(ns, m, from, source_pvc, recorded, read),
        },
    }
}

/// What a result says.
pub open spec fn resolved_result(r: Result<ResolvedMoverSecurity, Error>) -> Result<
    ResolvedView,
    ErrorView,
> {
    match r {
        Ok(s) => Ok(s@),
        Err(e) => Err(e@),
    }
}

fn borrow_text(o: &Option<String>) -> (s: Option<&str>)
    ensures
        opt_str(s) == opt_text(*o),
{
    match o {
        Some(t) => Some(t.as_str()),
        None => None,
    }
}

fn attempt(
    ns: &str,
    from: &InheritSecurityContextFrom,
    source_pvc: Option<&str>,
    recorded: &Option<SnapshotRecordedSource>,
    read: &PodsRead,
) -> (source: Result<InheritSource, Error>)
    ensures
        source_view(source) == attempted(ns@, *from, opt_str(source_pvc), *recorded, *read),
{
    match from {
        InheritSecurityContextFrom::WorkloadSelector { pod_selector, container } => {
            let query = match workload_query(ns, pod_selector) {
                Ok(query) => query,
                Err(e) => {
                    return Err(e);
                },
            };
            match read {
                PodsRead::Failed(why) => Err(Error::Kube(why.clone())),
                PodsRead::Listed(pods) => inherited_security_context_from_pods(
                    pods,
                    borrow_text(container),
                    ns,
                    query.as_str(),
                ),
            }
        },
        InheritSecurityContextFrom::PvcConsumer { container } => match consumed_claim(source_pvc) {
            Err(e) => Err(e),
            Ok(claim) => match read {
                PodsRead::Failed(why) => Err(Error::Kube(why.clone())),
                PodsRead::Listed(pods) => pvc_consumer_security_context_from_pods(
                    pods,
                    claim.as_str(),
                    ns,
                    borrow_text(container),
                ),
            },
        },
        InheritSecurityContextFrom::Snapshot => match recorded {
            None => Err(Error::Invariant(no_recorded_source_message(ns))),
            Some(source) => Err(
                Error::MissingDependency(no_recorded_identity_message(source.snapshot.as_str())),
            ),
        },
    }
}

fn resolve_requested(
    ns: &str,
    m: &MoverSpec,
    from: &InheritSecurityContextFrom,
    source_pvc: Option<&str>,
    recorded: &Option<SnapshotRecordedSource>,
    read: PodsRead,
) -> (resolved: Result<ResolvedMoverSecurity, Error>)
    ensures
        resolved_result(resolved) == resolved_requested(
            ns@,
            *m,
            *from,
            opt_str(source_pvc),
            *recorded,
            read,
        ),
{
    if let InheritSecurityContextFrom::Snapshot = from {
        if let Some(source) = recorded {
            if let Some(meta) = &source.meta {
                return Ok(resolved_from_recorded(m, source.snapshot.as_str(), meta));
            }
        }
    }
    match attempt(ns, from, source_pvc, recorded, &read) {
        Ok(source) => {
            let uid = source.uid();
            let pins_identity = source.pins_identity();
            let contexts = merge_context_pair(
                &source.contexts.0,
                &source.contexts.1,
                &m.security_context,
                &m.pod_security_context,
            );
            let unfiltered_pods = match from {
                InheritSecurityContextFrom::PvcConsumer { .. } => match read {
                    PodsRead::Listed(pods) => Some(pods),
                    PodsRead::Failed(_) => None,
                },
                _ => None,
            };
            Ok(
                ResolvedMoverSecurity {
                    contexts,
                    outcome: InheritOutcome::Inherited {
                        pod: source.pod,
                        container: source.container,
                        uid,
                        pins_identity,
                    },
                    unfiltered_pods,
                },
            )
        },
        Err(e) => match e {
            Error::MissingDependency(reason) => {
                if effective_run_as_user(&m.security_context, &m.pod_security_context).is_some() {
                    Ok(
                        ResolvedMoverSecurity {
                            contexts: (
                                copy_container(&m.security_context),
                                copy_pod(&m.pod_security_context),
                            ),
                            outcome: InheritOutcome::Fallback { reason },
                            unfiltered_pods: None,
                        },
                    )
                } else {
                    Err(Error::MissingDependency(reason))
                }
            },
            other => Err(other),
        },
    }
}

/// Resolves the recipe layer of a mover's contexts. `read` answers the listing
/// that [`pods_to_list`] asks for, and is not looked at where it asks for none.
pub fn resolve_mover_security_contexts(
    ns: &str,
    mover: &Option<MoverSpec>,
    source_pvc: Option<&str>,
    recorded: &Option<SnapshotRecordedSource>,
    read: PodsRead,
) -> (resolved: Result<ResolvedMoverSecurity, Error>)
    ensures
        resolved_result(resolved) == resolved_security(
            ns@,
            *mover,
            opt_str(source_pvc),
            *recorded,
            read,
        ),
{
    match mover {
        None => Ok(
            ResolvedMoverSecurity {
                contexts: (None, None),
                outcome: InheritOutcome::NotRequested,
                unfiltered_pods: None,
            },
        ),
        Some(m) => match &m.inherit_security_context_from {
            None => Ok(
                ResolvedMoverSecurity {
                    contexts: (
                        copy_container(&m.security_context),
                        copy_pod(&m.pod_security_context),
                    ),
                    outcome: InheritOutcome::NotRequested,
                    unfiltered_pods: None,
                },
            ),
            Some(from) => resolve_requested(ns, m, from, source_pvc, recorded, read),
        },
    }
}

/// A context stands in for a workload only where it pins a user.
pub proof fn fallback_pins_a_user(
    ns: Seq<char>,
    mover: Option<MoverSpec>,
    source_pvc: Option<Seq<char>>,
    recorded: Option<SnapshotRecordedSource>,
    read: PodsRead,
)
    ensures
        ({
            let r = resolved_security(ns, mover, source_pvc, recorded, read);
            r is Ok && r->Ok_0.outcome is Fallback ==> effective_user(
                r->Ok_0.contexts.0,
                r->Ok_0.contexts.1,
            ) is Some
        }),
{
}

/// A listing that fails is never papered over: where pods have to be read and
/// cannot be listed, the failure comes out, whatever the recipe pins.
pub proof fn failed_listing_never_falls_back(
    ns: Seq<char>,
    m: MoverSpec,
    source_pvc: Option<Seq<char>>,
    recorded: Option<SnapshotRecordedSource>,
    why: String,
)
    requires
        m.inherit_security_context_from is Some,
        match m.inherit_security_context_from->0 {
            InheritSecurityContextFrom::WorkloadSelector { pod_selector, .. } => selector_query(
                pod_selector,
            ) != ""@,
            InheritSecurityContextFrom::PvcConsumer { .. } => source_pvc is Some,
            InheritSecurityContextFrom::Snapshot => false,
        },
    ensures
        resolved_security(ns, Some(m), source_pvc, recorded, PodsRead::Failed(why)) == Err::<
            ResolvedView,
            ErrorView,
        >(ErrorView::Kube(why@)),
{
}

/// What the recipe writes always wins: a user that it pins, at either level,
/// is the user of what is resolved, however that was arrived at.
pub proof fn written_user_wins(
    ns: Seq<char>,
    m: MoverSpec,
    source_pvc: Option<Seq<char>>,
    recorded: Option<SnapshotRecordedSource>,
    read: PodsRead,
)
    requires
        effective_user(explicit_contexts(m).0, explicit_contexts(m).1) is Some,
    ensures
        ({
            let r = resolved_security(ns, Some(m), source_pvc, recorded, read);
            r is Ok ==> effective_user(r->Ok_0.contexts.0, r->Ok_0.contexts.1) == effective_user(
                explicit_contexts(m).0,
                explicit_contexts(m).1,
            )
        }),
{
    let explicit = explicit_contexts(m);
    if m.inherit_security_context_from is Some {
        let from = m.inherit_security_context_from->0;
        if from is Snapshot && recorded is Some && recorded->0.meta is Some {
            merge_keeps_the_highest_identity(recorded_contexts(recorded->0.meta->0), explicit);
        } else {
            let a = attempted(ns, from, source_pvc, recorded, read);
            if a is Ok {
                merge_keeps_the_highest_identity(a->Ok_0.contexts, explicit);
            }
        }
    }
}

/// Inheritance fills in what the recipe leaves blank: where it pins no user,
/// that of what was read is the user of what is resolved.
pub proof fn read_user_fills_the_blank(
    ns: Seq<char>,
    m: MoverSpec,
    source_pvc: Option<Seq<char>>,
    recorded: Option<SnapshotRecordedSource>,
    read: PodsRead,
)
    requires
        effective_user(explicit_contexts(m).0, explicit_contexts(m).1) is None,
    ensures
        ({
            let r = resolved_security(ns, Some(m), source_pvc, recorded, read);
            r is Ok ==> effective_user(r->Ok_0.contexts.0, r->Ok_0.contexts.1) == (
            match r->Ok_0.outcome {
                OutcomeView::Inherited { uid, .. } => uid,
                OutcomeView::InheritedFromSnapshot { uid, .. } => uid,
                _ => None,
            })
        }),
{
    let explicit = explicit_contexts(m);
    if m.inherit_security_context_from is Some {
        let from = m.inherit_security_context_from->0;
        if from is Snapshot && recorded is Some && recorded->0.meta is Some {
            merge_keeps_the_highest_identity(recorded_contexts(recorded->0.meta->0), explicit);
        } else {
            let a = attempted(ns, from, source_pvc, recorded, read);
            if a is Ok {
                merge_keeps_the_highest_identity(a->Ok_0.contexts, explicit);
            }
        }
    }
}

/// Pods are handed on only where the whole namespace was listed.
pub proof fn only_whole_listings_are_handed_on(
    ns: Seq<char>,
    mover: Option<MoverSpec>,
    source_pvc: Option<Seq<char>>,
    recorded: Option<SnapshotRecordedSource>,
    read: PodsRead,
)
    ensures
        ({
            let r = resolved_security(ns, mover, source_pvc, recorded, read);
            r is Ok && r->Ok_0.unfiltered_pods is Some ==> {
                &&& mover is Some
                &&& mover->0.inherit_security_context_from is Some
                &&& mover->0.inherit_security_context_from->0 is PvcConsumer
                &&& r->Ok_0.outcome is Inherited
                &&& read is Listed
                &&& r->Ok_0.unfiltered_pods->0 == read->Listed_0@
            }
        }),
{
}

/// A persistent cache claim to create.
pub struct CacheClaim {
    pub metadata: crate::labels::ObjectMeta,
    pub access_mode: String,
    pub capacity: String,
    pub storage_class: Option<String>,
}

/// The label that says which part a child object plays.
pub const CHILD_COMPONENT_LABEL: &'static str = "kopiur.home-operations.com/component";

/// Decides whether a cache claim has to be created, and how. One that is there
/// is left as it is.
pub fn ensure_cache_pvc(
    exists: bool,
    ns: &str,
    name: &str,
    owner: crate::labels::OwnerReference,
    capacity: &str,
    storage_class: Option<&str>,
) -> (claim: Option<CacheClaim>)
    ensures
        claim is None <==> exists,
        claim is Some ==> {
            &&& claim->0.metadata.name@ == name@
            &&& claim->0.metadata.namespace@ == ns@
            &&& claim->0.metadata.owner == Some(owner)
            &&& claim->0.metadata.labels is Some
            &&& claim->0.metadata.labels->0.wf()
            &&& claim->0.metadata.labels->0@ == Map::<Seq<char>, Seq<char>>::empty().insert(
                CHILD_COMPONENT_LABEL@,
                "mover-cache"@,
            ).insert(crate::labels::MANAGED_BY_LABEL@, crate::labels::MANAGED_BY_VALUE@)
            &&& claim->0.access_mode@ == "ReadWriteOnce"@
            &&& claim->0.capacity@ == capacity@
            &&& opt_text(claim->0.storage_class) == opt_str(storage_class)
        },
{
    if exists {
        return None;
    }
    let mut labels = crate::labels::Labels::new();
    labels.insert(CHILD_COMPONENT_LABEL, "mover-cache");
    labels.insert(crate::labels::MANAGED_BY_LABEL, crate::labels::MANAGED_BY_VALUE);
    let storage_class = match storage_class {
        Some(c) => Some(c.to_owned()),
        None => None,
    };
    Some(
        CacheClaim {
            metadata: crate::labels::ObjectMeta {
                name: name.to_owned(),
                namespace: ns.to_owned(),
                labels: Some(labels),
                owner: Some(owner),
            },
            access_mode: "ReadWriteOnce".to_owned(),
            capacity: capacity.to_owned(),
            storage_class,
        },
    )
}

/// What creating a claim came to.
pub enum CreateOutcome {
    Created,
    /// Another reconcile created it first.
    Conflict,
    Failed(String),
}

/// The claim's name, where it is there now.
pub fn cache_pvc_created(outcome: CreateOutcome, name: &str) -> (claim: Result<String, Error>)
    ensures
        claim is Err <==> outcome is Failed,
        claim is Ok ==> claim->Ok_0@ == name@,
        claim is Err ==> claim->Err_0@ == ErrorView::Kube(outcome->Failed_0@),
{
    match outcome {
        CreateOutcome::Created => Ok(name.to_owned()),
        CreateOutcome::Conflict => Ok(name.to_owned()),
        CreateOutcome::Failed(why) => Err(Error::Kube(why)),
    }
}

/// A record stands for the identity that it holds: its user and its group on
/// the container, its volume group on the pod, and nothing else at either.
pub proof fn record_stands_for_its_identity(meta: RecordedSnapshotMeta)
    ensures
        ({
            let (container, pod) = recorded_contexts(meta);
            &&& container is Some && pod is Some
            &&& container->0.run_as_user == meta.uid
            &&& container->0.run_as_group == meta.gid
            &&& container->0 == (ContainerContextView {
                run_as_user: meta.uid,
                run_as_group: meta.gid,
                ..SecurityContext::blank()
            })
            &&& pod->0.fs_group == meta.fs_group
            &&& pod->0.run_as_user is None && pod->0.run_as_group is None
            &&& pod->0.supplemental_groups is None
        }),
{
}

/// A recipe that asks for no identity gets what it writes, and a mover without
/// a recipe gets nothing, whatever pods or records there are.
pub proof fn nothing_is_inherited_unasked(
    ns: Seq<char>,
    mover: Option<MoverSpec>,
    source_pvc: Option<Seq<char>>,
    recorded: Option<SnapshotRecordedSource>,
    read: PodsRead,
)
    ensures
        ({
            let r = resolved_security(ns, mover, source_pvc, recorded, read);
            let asked = mover is Some && mover->0.inherit_security_context_from is Some;
            &&& !asked ==> r is Ok && r->Ok_0.outcome is NotRequested && r->Ok_0.unfiltered_pods
                is None
            &&& mover is None ==> r->Ok_0.contexts == (
                None::<ContainerContextView>,
                None::<PodContextView>,
            )
            &&& mover is Some && !asked ==> r->Ok_0.contexts == (
                container_view(mover->0.security_context),
                pod_view(mover->0.pod_security_context),
            )
            &&& asked && r is Ok ==> !(r->Ok_0.outcome is NotRequested)
        }),
{
}

/// A restore that asks for its snapshot's identity gets what was recorded,
/// under what its recipe writes, and says whose record it was and what it held;
/// where nothing was recorded it falls back on the recipe's own user or fails.
pub proof fn recorded_identity_is_taken_over(
    ns: Seq<char>,
    m: MoverSpec,
    source_pvc: Option<Seq<char>>,
    recorded: Option<SnapshotRecordedSource>,
    read: PodsRead,
)
    requires
        m.inherit_security_context_from == Some(InheritSecurityContextFrom::Snapshot),
    ensures
        ({
            let r = resolved_security(ns, Some(m), source_pvc, recorded, read);
            let own = (container_view(m.security_context), pod_view(m.pod_security_context));
            let held = recorded is Some && recorded->0.meta is Some;
            let meta = recorded->0.meta->0;
            &&& held ==> r is Ok && r->Ok_0.outcome == (OutcomeView::InheritedFromSnapshot {
                snapshot: recorded->0.snapshot@,
                uid: meta.uid,
                src: meta.src,
            }) && r->Ok_0.contexts == merged_pair(recorded_contexts(meta), own)
            &&& recorded is None ==> r is Err && r->Err_0 is Invariant
            &&& recorded is Some && !held && pinned_user(own) is None ==> r is Err && r->Err_0
                == ErrorView::MissingDependency(no_recorded_identity_text(recorded->0.snapshot@))
            &&& recorded is Some && !held && pinned_user(own) is Some ==> r is Ok
                && r->Ok_0.outcome == (OutcomeView::Fallback {
                reason: no_recorded_identity_text(recorded->0.snapshot@),
            }) && r->Ok_0.contexts == own
        }),
{
}

/// A recipe that asks for a workload's identity gets what was read, under what
/// it writes itself, and says which pod and container that was; where nothing
/// can be read, its own contexts stand in exactly where they pin a user, with
/// the reason, and any other failure comes out as it is.
pub proof fn workload_identity_is_taken_over_or_told(
    ns: Seq<char>,
    m: MoverSpec,
    source_pvc: Option<Seq<char>>,
    recorded: Option<SnapshotRecordedSource>,
    read: PodsRead,
)
    requires
        m.inherit_security_context_from is Some,
        !(m.inherit_security_context_from->0 is Snapshot),
    ensures
        ({
            let from = m.inherit_security_context_from->0;
            let r = resolved_security(ns, Some(m), source_pvc, recorded, read);
            let own = (container_view(m.security_context), pod_view(m.pod_security_context));
            let a = attempted(ns, from, source_pvc, recorded, read);
            let fits = a is Err && a->Err_0 is MissingDependency && pinned_user(own) is Some;
            &&& a is Ok ==> {
                &&& r is Ok
                &&& r->Ok_0.contexts == merged_pair(a->Ok_0.contexts, own)
                &&& r->Ok_0.outcome == (OutcomeView::Inherited {
                    pod: a->Ok_0.pod,
                    container: a->Ok_0.container,
                    uid: pinned_user(a->Ok_0.contexts),
                    pins_identity: identity_pinned(a->Ok_0.contexts.0, a->Ok_0.contexts.1),
                })
                &&& from is PvcConsumer && read is Listed ==> r->Ok_0.unfiltered_pods == Some(
                    read->Listed_0@,
                )
                &&& from is WorkloadSelector ==> r->Ok_0.unfiltered_pods is None
            }
            &&& fits ==> r is Ok && r->Ok_0.contexts == own && r->Ok_0.outcome
                == (OutcomeView::Fallback { reason: a->Err_0->MissingDependency_0 })
                && r->Ok_0.unfiltered_pods is None
            &&& a is Err && !fits ==> r is Err && r->Err_0 == a->Err_0
        }),
{
}

/// Where a workload is asked for, it is the one that is read: a selector reads
/// the pods that it selects, and a claim its consumer, in the container that
/// was named. Without a selector or a claim nothing is read.
pub proof fn asked_workload_is_read(
    ns: Seq<char>,
    from: InheritSecurityContextFrom,
    source_pvc: Option<Seq<char>>,
    recorded: Option<SnapshotRecordedSource>,
    pods: Vec<Pod>,
)
    ensures
        ({
            let a = attempted(ns, from, source_pvc, recorded, PodsRead::Listed(pods));
            &&& from matches InheritSecurityContextFrom::WorkloadSelector {
                pod_selector,
                container,
            } ==> {
                let query = selector_query(pod_selector);
                &&& query == ""@ ==> a is Err && a->Err_0 == ErrorView::MissingDependency(
                    empty_selector_text(ns),
                )
                &&& query != ""@ ==> a == inherited_from_pods(pods@, opt_text(container), ns, query)
            }
            &&& from matches InheritSecurityContextFrom::PvcConsumer { container } ==> {
                &&& source_pvc is None ==> a is Err && a->Err_0 == ErrorView::MissingDependency(
                    no_source_claim_text(),
                )
                &&& source_pvc is Some ==> a == inherited_from_consumer(
                    pods@,
                    source_pvc->0,
                    ns,
                    opt_text(container),
                )
            }
        }),
{
}

} // verus!
