//! What is said where a mover cannot inherit an identity.
use crate::text::{mentions, part_is_mentioned};
use vstd::prelude::*;
use vstd::string::StringExecFns;

verus! {

/// The text of [`empty_selector_message`].
pub open spec fn empty_selector_text(ns: Seq<char>) -> Seq<char> {
    "mover.inheritSecurityContextFrom.podSelector is empty in namespace `"@
        + ns
        + "` — set matchLabels/matchExpressions identifying the workload pod whose securityContext the mover should inherit (UID/GID match)"@
}

/// What is said of a selector that selects nothing in particular.
pub fn empty_selector_message(ns: &str) -> (message: String)
    ensures
        message@ == empty_selector_text(ns@),
{
    let mut message = "mover.inheritSecurityContextFrom.podSelector is empty in namespace `".to_owned();
    message.append(ns);
    message.append("` — set matchLabels/matchExpressions identifying the workload pod whose securityContext the mover should inherit (UID/GID match)");
    message
}

/// The text of [`no_matching_pod_message`].
pub open spec fn no_matching_pod_text(query: Seq<char>, ns: Seq<char>) -> Seq<char> {
    "no pod matches mover.inheritSecurityContextFrom (`"@
        + query
        + "`) in namespace `"@
        + ns
        + "` — inheriting reads a LIVE pod's securityContext, so the workload must be running for its UID/GID to be read. Scale it up, or fix podSelector.matchLabels. To keep backups running while it is down, set mover.securityContext.runAsUser: an explicit context that pins an identity is used as the fallback (and this run proceeds) instead of being held here."@
}

/// What is said where no pod matches the selector.
pub fn no_matching_pod_message(query: &str, ns: &str) -> (message: String)
    ensures
        message@ == no_matching_pod_text(query@, ns@),
{
    let mut message = "no pod matches mover.inheritSecurityContextFrom (`".to_owned();
    message.append(query);
    message.append("`) in namespace `");
    message.append(ns);
    message.append("` — inheriting reads a LIVE pod's securityContext, so the workload must be running for its UID/GID to be read. Scale it up, or fix podSelector.matchLabels. To keep backups running while it is down, set mover.securityContext.runAsUser: an explicit context that pins an identity is used as the fallback (and this run proceeds) instead of being held here.");
    message
}

/// The text of [`no_such_container_message`].
pub open spec fn no_such_container_text(pod: Seq<char>, ns: Seq<char>, name: Seq<char>) -> Seq<char> {
    "pod `"@
        + pod
        + "` (matched by mover.inheritSecurityContextFrom in `"@
        + ns
        + "`) has no container `"@
        + name
        + "` — fix `inheritSecurityContextFrom.container`"@
}

/// What is said where the pod lacks the named container.
pub fn no_such_container_message(pod: &str, ns: &str, name: &str) -> (message: String)
    ensures
        message@ == no_such_container_text(pod@, ns@, name@),
{
    let mut message = "pod `".to_owned();
    message.append(pod);
    message.append("` (matched by mover.inheritSecurityContextFrom in `");
    message.append(ns);
    message.append("`) has no container `");
    message.append(name);
    message.append("` — fix `inheritSecurityContextFrom.container`");
    message
}

/// The text of [`nothing_to_inherit_message`].
pub open spec fn nothing_to_inherit_text(pod: Seq<char>, ns: Seq<char>) -> Seq<char> {
    "pod `"@
        + pod
        + "` (mover.inheritSecurityContextFrom, `"@
        + ns
        + "`) sets no securityContext at all — neither a container nor a pod-level one — so there is nothing to inherit. Its UID comes from its container image, which Kopiur cannot read from the pod spec. Set runAsUser on the workload, or set mover.securityContext.runAsUser to that image's UID (it merges with, and overrides, inherited values)."@
}

/// What is said of a pod without any security context.
pub fn nothing_to_inherit_message(pod: &str, ns: &str) -> (message: String)
    ensures
        message@ == nothing_to_inherit_text(pod@, ns@),
{
    let mut message = "pod `".to_owned();
    message.append(pod);
    message.append("` (mover.inheritSecurityContextFrom, `");
    message.append(ns);
    message.append("`) sets no securityContext at all — neither a container nor a pod-level one — so there is nothing to inherit. Its UID comes from its container image, which Kopiur cannot read from the pod spec. Set runAsUser on the workload, or set mover.securityContext.runAsUser to that image's UID (it merges with, and overrides, inherited values).");
    message
}

/// The text of [`no_source_claim_message`].
pub open spec fn no_source_claim_text() -> Seq<char> {
    "mover.inheritSecurityContextFrom.pvcConsumer is only valid for a backup whose source is a single PVC — this run has no source PVC to derive the workload from; use workloadSelector or an explicit mover.securityContext instead"@
}

/// What is said where a run has no claim to find a consumer of.
pub fn no_source_claim_message() -> (message: String)
    ensures
        message@ == no_source_claim_text(),
{
    let mut message = "mover.inheritSecurityContextFrom.pvcConsumer is only valid for a backup whose source is a single PVC — this run has no source PVC to derive the workload from; use workloadSelector or an explicit mover.securityContext instead".to_owned();
    message
}

/// The text of [`no_consumer_message`].
pub open spec fn no_consumer_text(claim: Seq<char>, ns: Seq<char>) -> Seq<char> {
    "no running workload pod mounts the backup source PVC `"@
        + claim
        + "` in namespace `"@
        + ns
        + "` — mover.inheritSecurityContextFrom.pvcConsumer derives the mover's UID/GID from the pod that consumes this PVC, so that pod must be running. Scale the workload up. To keep backups running while it is down, set mover.securityContext.runAsUser: an explicit context that pins an identity is used as the fallback (and this run proceeds) instead of being held here."@
}

/// What is said where no workload mounts the claim.
pub fn no_consumer_message(claim: &str, ns: &str) -> (message: String)
    ensures
        message@ == no_consumer_text(claim@, ns@),
{
    let mut message = "no running workload pod mounts the backup source PVC `".to_owned();
    message.append(claim);
    message.append("` in namespace `");
    message.append(ns);
    message.append("` — mover.inheritSecurityContextFrom.pvcConsumer derives the mover's UID/GID from the pod that consumes this PVC, so that pod must be running. Scale the workload up. To keep backups running while it is down, set mover.securityContext.runAsUser: an explicit context that pins an identity is used as the fallback (and this run proceeds) instead of being held here.");
    message
}

/// The text of [`no_recorded_source_message`].
pub open spec fn no_recorded_source_text(ns: Seq<char>) -> Seq<char> {
    "mover.inheritSecurityContextFrom.snapshot reached a reconciler that resolved no recorded-identity source in namespace `"@
        + ns
        + "` — this variant is restore-only (admission rejects it on SnapshotPolicy/Maintenance/RepositoryReplication). This is a kopiur bug; please report it. As a workaround, set mover.securityContext explicitly."@
}

/// What is said where a run that restores nothing asks for a recorded identity.
pub fn no_recorded_source_message(ns: &str) -> (message: String)
    ensures
        message@ == no_recorded_source_text(ns@),
{
    let mut message = "mover.inheritSecurityContextFrom.snapshot reached a reconciler that resolved no recorded-identity source in namespace `".to_owned();
    message.append(ns);
    message.append("` — this variant is restore-only (admission rejects it on SnapshotPolicy/Maintenance/RepositoryReplication). This is a kopiur bug; please report it. As a workaround, set mover.securityContext explicitly.");
    message
}

/// The text of [`no_recorded_identity_message`].
pub open spec fn no_recorded_identity_text(snapshot: Seq<char>) -> Seq<char> {
    "Snapshot `"@
        + snapshot
        + "` carries no recorded identity (`status.recorded`) — it predates the kopiur-meta feature or was written by a foreign tool; the catalog scan backfills it when the kopia snapshot carries the tag. Set mover.securityContext explicitly, or use inheritSecurityContextFrom.workloadSelector."@
}

/// What is said of a snapshot that records no identity.
pub fn no_recorded_identity_message(snapshot: &str) -> (message: String)
    ensures
        message@ == no_recorded_identity_text(snapshot@),
{
    let mut message = "Snapshot `".to_owned();
    message.append(snapshot);
    message.append("` carries no recorded identity (`status.recorded`) — it predates the kopiur-meta feature or was written by a foreign tool; the catalog scan backfills it when the kopia snapshot carries the tag. Set mover.securityContext explicitly, or use inheritSecurityContextFrom.workloadSelector.");
    message
}

/// An empty selector is told with its namespace.
pub proof fn empty_selector_text_names_all(
    ns: Seq<char>,
)
    ensures
        mentions(empty_selector_text(ns), "mover.inheritSecurityContextFrom.podSelector is empty in namespace `"@ + ns),
{
    let text = empty_selector_text(ns);
    let head = Seq::<char>::empty();
    let part = "mover.inheritSecurityContextFrom.podSelector is empty in namespace `"@ + ns;
    let tail = text.skip((head + part).len() as int);
    assert(text =~= head + part + tail);
    part_is_mentioned(head, part, tail);
}

/// A selector that matches no pod is told with its query and its namespace.
pub proof fn no_matching_pod_text_names_all(
    query: Seq<char>,
    ns: Seq<char>,
)
    ensures
        mentions(no_matching_pod_text(query, ns), "no pod matches mover.inheritSecurityContextFrom (`"@ + query),
        mentions(no_matching_pod_text(query, ns), "`) in namespace `"@ + ns),
{
    let text = no_matching_pod_text(query, ns);
    let head = Seq::<char>::empty();
    let part = "no pod matches mover.inheritSecurityContextFrom (`"@ + query;
    let tail = text.skip((head + part).len() as int);
    assert(text =~= head + part + tail);
    part_is_mentioned(head, part, tail);
    let head = "no pod matches mover.inheritSecurityContextFrom (`"@ + query;
    let part = "`) in namespace `"@ + ns;
    let tail = text.skip((head + part).len() as int);
    assert(text =~= head + part + tail);
    part_is_mentioned(head, part, tail);
}

/// A missing container is told with its pod, its namespace and its name.
pub proof fn no_such_container_text_names_all(
    pod: Seq<char>,
    ns: Seq<char>,
    name: Seq<char>,
)
    ensures
        mentions(no_such_container_text(pod, ns, name), "pod `"@ + pod),
        mentions(no_such_container_text(pod, ns, name), "` (matched by mover.inheritSecurityContextFrom in `"@ + ns),
        mentions(no_such_container_text(pod, ns, name), "`) has no container `"@ + name),
{
    let text = no_such_container_text(pod, ns, name);
    let head = Seq::<char>::empty();
    let part = "pod `"@ + pod;
    let tail = text.skip((head + part).len() as int);
    assert(text =~= head + part + tail);
    part_is_mentioned(head, part, tail);
    let head = "pod `"@ + pod;
    let part = "` (matched by mover.inheritSecurityContextFrom in `"@ + ns;
    let tail = text.skip((head + part).len() as int);
    assert(text =~= head + part + tail);
    part_is_mentioned(head, part, tail);
    let head = "pod `"@ + pod + "` (matched by mover.inheritSecurityContextFrom in `"@ + ns;
    let part = "`) has no container `"@ + name;
    let tail = text.skip((head + part).len() as int);
    assert(text =~= head + part + tail);
    part_is_mentioned(head, part, tail);
}

/// A pod that says nothing is told with its name and its namespace.
pub proof fn nothing_to_inherit_text_names_all(
    pod: Seq<char>,
    ns: Seq<char>,
)
    ensures
        mentions(nothing_to_inherit_text(pod, ns), "pod `"@ + pod),
        mentions(nothing_to_inherit_text(pod, ns), "` (mover.inheritSecurityContextFrom, `"@ + ns),
{
    let text = nothing_to_inherit_text(pod, ns);
    let head = Seq::<char>::empty();
    let part = "pod `"@ + pod;
    let tail = text.skip((head + part).len() as int);
    assert(text =~= head + part + tail);
    part_is_mentioned(head, part, tail);
    let head = "pod `"@ + pod;
    let part = "` (mover.inheritSecurityContextFrom, `"@ + ns;
    let tail = text.skip((head + part).len() as int);
    assert(text =~= head + part + tail);
    part_is_mentioned(head, part, tail);
}

/// A claim without a consumer is told with its name and its namespace.
pub proof fn no_consumer_text_names_all(
    claim: Seq<char>,
    ns: Seq<char>,
)
    ensures
        mentions(no_consumer_text(claim, ns), "no running workload pod mounts the backup source PVC `"@ + claim),
        mentions(no_consumer_text(claim, ns), "` in namespace `"@ + ns),
{
    let text = no_consumer_text(claim, ns);
    let head = Seq::<char>::empty();
    let part = "no running workload pod mounts the backup source PVC `"@ + claim;
    let tail = text.skip((head + part).len() as int);
    assert(text =~= head + part + tail);
    part_is_mentioned(head, part, tail);
    let head = "no running workload pod mounts the backup source PVC `"@ + claim;
    let part = "` in namespace `"@ + ns;
    let tail = text.skip((head + part).len() as int);
    assert(text =~= head + part + tail);
    part_is_mentioned(head, part, tail);
}

/// A record that was never looked up is told with its namespace.
pub proof fn no_recorded_source_text_names_all(
    ns: Seq<char>,
)
    ensures
        mentions(no_recorded_source_text(ns), "mover.inheritSecurityContextFrom.snapshot reached a reconciler that resolved no recorded-identity source in namespace `"@ + ns),
{
    let text = no_recorded_source_text(ns);
    let head = Seq::<char>::empty();
    let part = "mover.inheritSecurityContextFrom.snapshot reached a reconciler that resolved no recorded-identity source in namespace `"@ + ns;
    let tail = text.skip((head + part).len() as int);
    assert(text =~= head + part + tail);
    part_is_mentioned(head, part, tail);
}

/// A snapshot without a record is told by its name.
pub proof fn no_recorded_identity_text_names_all(
    snapshot: Seq<char>,
)
    ensures
        mentions(no_recorded_identity_text(snapshot), "Snapshot `"@ + snapshot),
{
    let text = no_recorded_identity_text(snapshot);
    let head = Seq::<char>::empty();
    let part = "Snapshot `"@ + snapshot;
    let tail = text.skip((head + part).len() as int);
    assert(text =~= head + part + tail);
    part_is_mentioned(head, part, tail);
}

} // verus!
