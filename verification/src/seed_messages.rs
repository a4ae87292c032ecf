//! What the controller says about a seed: its progress, and every way it is
//! held back, each with the fix.
use crate::quote::{debug_quoted, debug_text};
use crate::text::{decimal, mentions, part_is_mentioned, render_i64};
use vstd::prelude::*;
use vstd::string::StringExecFns;

verus! {

/// The text of [`seeding_message`].
pub open spec fn seeding_text(source_description: Seq<char>, deadline_secs: int) -> Seq<char> {
    "copying this repository's initial contents from "@
        + source_description
        + "; not Ready until the copy finishes (phase Initializing, or Degraded while an earlier attempt is retried). The seeding Job's deadline is "@
        + decimal(deadline_secs)
        + "s (spec.seed.failurePolicy.activeDeadlineSeconds); watch the bootstrap Job's pod logs for progress."@
}

/// The progress message while a seeding Job is in flight.
pub fn seeding_message(source_description: &str, deadline_secs: i64) -> (message: String)
    ensures
        message@ == seeding_text(source_description@, deadline_secs as int),
{
    let mut message = "copying this repository's initial contents from ".to_owned();
    message.append(source_description);
    message.append("; not Ready until the copy finishes (phase Initializing, or Degraded while an earlier attempt is retried). The seeding Job's deadline is ");
    message.append(render_i64(deadline_secs).as_str());
    message.append("s (spec.seed.failurePolicy.activeDeadlineSeconds); watch the bootstrap Job's pod logs for progress.");
    message
}

/// The text of [`waiting_for_seed_source_message`].
pub open spec fn waiting_for_seed_source_text(source_description: Seq<char>, why: Seq<char>) -> Seq<char> {
    "spec.seed copies this repository's initial contents from "@
        + source_description
        + ", but "@
        + why
        + ". This repository stays Pending until the source is usable. Fix: bring the source repository up (check its own status/conditions), or point spec.seed.from.repository at one that is."@
}

/// The message of a seed whose source repository is missing or not ready.
pub fn waiting_for_seed_source_message(source_description: &str, why: &str) -> (message: String)
    ensures
        message@ == waiting_for_seed_source_text(source_description@, why@),
{
    let mut message = "spec.seed copies this repository's initial contents from ".to_owned();
    message.append(source_description);
    message.append(", but ");
    message.append(why);
    message.append(". This repository stays Pending until the source is usable. Fix: bring the source repository up (check its own status/conditions), or point spec.seed.from.repository at one that is.");
    message
}

/// The text of [`bare_path_seed_source_message`].
pub open spec fn bare_path_seed_source_text(source_description: Seq<char>, path: Seq<char>) -> Seq<char> {
    "spec.seed reads from "@
        + source_description
        + ", whose backend is a BARE-PATH filesystem repository (path `"@
        + path
        + "`, no `volume`) reachable only on the controller's filesystem — a seeding Job would mount nothing and find no repository. Fix: give the source Repository a `backend.filesystem.volume` (a PVC or inline NFS export), or seed from a network-reachable backend via spec.seed.from.backend."@
}

/// The message of a seed whose source lives on a path that no Job can mount.
pub fn bare_path_seed_source_message(source_description: &str, path: &str) -> (message: String)
    ensures
        message@ == bare_path_seed_source_text(source_description@, path@),
{
    let mut message = "spec.seed reads from ".to_owned();
    message.append(source_description);
    message.append(", whose backend is a BARE-PATH filesystem repository (path `");
    message.append(path);
    message.append("`, no `volume`) reachable only on the controller's filesystem — a seeding Job would mount nothing and find no repository. Fix: give the source Repository a `backend.filesystem.volume` (a PVC or inline NFS export), or seed from a network-reachable backend via spec.seed.from.backend.");
    message
}

/// The text of [`seed_source_same_storage_message`].
pub open spec fn seed_source_same_storage_text(source_description: Seq<char>, kind: Seq<char>) -> Seq<char> {
    "spec.seed reads from "@
        + source_description
        + ", which resolves to this repository's own "@
        + kind
        + " storage (spec.backend) — the seed would read and write one location. Admission catches a self-reference only BY NAME; a second CR over one bucket/PVC has the same storage. Fix: point spec.seed.from.repository at the repository holding the surviving history, or drop spec.seed if this one already has it."@
}

/// The message of a seed that would read and write one location.
pub fn seed_source_same_storage_message(source_description: &str, kind: &str) -> (message: String)
    ensures
        message@ == seed_source_same_storage_text(source_description@, kind@),
{
    let mut message = "spec.seed reads from ".to_owned();
    message.append(source_description);
    message.append(", which resolves to this repository's own ");
    message.append(kind);
    message.append(" storage (spec.backend) — the seed would read and write one location. Admission catches a self-reference only BY NAME; a second CR over one bucket/PVC has the same storage. Fix: point spec.seed.from.repository at the repository holding the surviving history, or drop spec.seed if this one already has it.");
    message
}

/// The text of [`seed_mount_path_collision_message`].
pub open spec fn seed_mount_path_collision_text(source_description: Seq<char>, path: Seq<char>) -> Seq<char> {
    "spec.seed reads from "@
        + source_description
        + ", whose filesystem backend mounts at "@
        + debug_text(path)
        + " — the same in-pod path as this repository's backend. One pod mounts BOTH, and two volumes cannot share one mountPath, so the Job is rejected. Fix: give one repository a distinct backend.filesystem.path (e.g. /seed-source); the path only sets where the volume mounts in kopiur's pods, so changing it moves no data."@
}

/// The message of a seed whose two volumes would share one mount path.
pub fn seed_mount_path_collision_message(source_description: &str, path: &str) -> (message: String)
    ensures
        message@ == seed_mount_path_collision_text(source_description@, path@),
{
    let mut message = "spec.seed reads from ".to_owned();
    message.append(source_description);
    message.append(", whose filesystem backend mounts at ");
    message.append(debug_quoted(path).as_str());
    message.append(" — the same in-pod path as this repository's backend. One pod mounts BOTH, and two volumes cannot share one mountPath, so the Job is rejected. Fix: give one repository a distinct backend.filesystem.path (e.g. /seed-source); the path only sets where the volume mounts in kopiur's pods, so changing it moves no data.");
    message
}

/// Which of the two backends of a seed federate, and what that means for one
/// pod.
pub open spec fn auth_conflict_detail(
    local: Option<Seq<char>>,
    source: Option<Seq<char>>,
) -> Seq<char> {
    match (local, source) {
        (Some(a), Some(b)) => "this repository federates as ServiceAccount "@ + debug_text(a)
            + " and the seed source as "@ + debug_text(b),
        (Some(a), None) => "this repository federates as ServiceAccount "@ + debug_text(a)
            + ", the same-kind source uses a static credential Secret the pod would pick up as the wrong identity"@,
        (None, Some(b)) => "the seed source federates as ServiceAccount "@ + debug_text(b)
            + ", the same-kind local uses a static credential Secret the pod would pick up as the wrong identity"@,
        (None, None) => "the two backends' credentials cannot both be used from one pod"@,
    }
}

/// Words which of the two backends of a seed federate.
fn auth_conflict_words(local: &Option<String>, source: &Option<String>) -> (detail: String)
    ensures
        detail@ == auth_conflict_detail(
            crate::text::opt_text(*local),
            crate::text::opt_text(*source),
        ),
{
    match (local, source) {
        (Some(a), Some(b)) => {
            let mut m = "this repository federates as ServiceAccount ".to_owned();
            m.append(debug_quoted(a.as_str()).as_str());
            m.append(" and the seed source as ");
            m.append(debug_quoted(b.as_str()).as_str());
            m
        },
        (Some(a), None) => {
            let mut m = "this repository federates as ServiceAccount ".to_owned();
            m.append(debug_quoted(a.as_str()).as_str());
            m.append(", the same-kind source uses a static credential Secret the pod would pick up as the wrong identity");
            m
        },
        (None, Some(b)) => {
            let mut m = "the seed source federates as ServiceAccount ".to_owned();
            m.append(debug_quoted(b.as_str()).as_str());
            m.append(", the same-kind local uses a static credential Secret the pod would pick up as the wrong identity");
            m
        },
        (None, None) => "the two backends' credentials cannot both be used from one pod".to_owned(),
    }
}

/// The text of [`seed_auth_conflict_with`].
pub open spec fn seed_source_auth_conflict_text(source_description: Seq<char>, detail: Seq<char>) -> Seq<char> {
    "spec.seed copies this repository's initial contents from "@
        + source_description
        + ", but the two backends' credentials cannot share one seeding pod: "@
        + detail
        + ". A bootstrap Job runs as exactly ONE ServiceAccount, so kopiur will not launch a seed that fails part-way on a cloud auth error. Fix: put both backends' auth.workloadIdentity on the SAME ServiceAccount (access to both stores), or give both sides static credential Secrets in the bootstrap Job's namespace (a Repository's own; a ClusterRepository's operator namespace, unless encryption.passwordSecretRef.namespace pins another)."@
}

/// Words a credential conflict around its detail.
fn seed_auth_conflict_with(source_description: &str, detail: &str) -> (message: String)
    ensures
        message@ == seed_source_auth_conflict_text(source_description@, detail@),
{
    let mut message = "spec.seed copies this repository's initial contents from ".to_owned();
    message.append(source_description);
    message.append(", but the two backends' credentials cannot share one seeding pod: ");
    message.append(detail);
    message.append(". A bootstrap Job runs as exactly ONE ServiceAccount, so kopiur will not launch a seed that fails part-way on a cloud auth error. Fix: put both backends' auth.workloadIdentity on the SAME ServiceAccount (access to both stores), or give both sides static credential Secrets in the bootstrap Job's namespace (a Repository's own; a ClusterRepository's operator namespace, unless encryption.passwordSecretRef.namespace pins another).");
    message
}

/// The message of a seed whose two backends disagree on workload identity:
/// the ServiceAccount each of them federates as, where it does.
pub fn seed_source_auth_conflict_message(
    source_description: &str,
    local_identity: &Option<String>,
    source_identity: &Option<String>,
) -> (message: String)
    ensures
        message@ == seed_source_auth_conflict_text(
            source_description@,
            auth_conflict_detail(
                crate::text::opt_text(*local_identity),
                crate::text::opt_text(*source_identity),
            ),
        ),
{
    let detail = auth_conflict_words(local_identity, source_identity);
    seed_auth_conflict_with(source_description, detail.as_str())
}

/// A running seed is told with its source and its deadline.
pub proof fn seeding_text_names_all(
    source_description: Seq<char>,
    deadline_secs: int,
)
    ensures
        mentions(seeding_text(source_description, deadline_secs), "copying this repository's initial contents from "@ + source_description),
        mentions(seeding_text(source_description, deadline_secs), "; not Ready until the copy finishes (phase Initializing, or Degraded while an earlier attempt is retried). The seeding Job's deadline is "@ + decimal(deadline_secs)),
{
    let text = seeding_text(source_description, deadline_secs);
    let head = Seq::<char>::empty();
    let part = "copying this repository's initial contents from "@ + source_description;
    let tail = text.skip((head + part).len() as int);
    assert(text =~= head + part + tail);
    part_is_mentioned(head, part, tail);
    let head = "copying this repository's initial contents from "@ + source_description;
    let part = "; not Ready until the copy finishes (phase Initializing, or Degraded while an earlier attempt is retried). The seeding Job's deadline is "@ + decimal(deadline_secs);
    let tail = text.skip((head + part).len() as int);
    assert(text =~= head + part + tail);
    part_is_mentioned(head, part, tail);
}

/// A seed that waits is told with its source and the reason.
pub proof fn waiting_for_seed_source_text_names_all(
    source_description: Seq<char>,
    why: Seq<char>,
)
    ensures
        mentions(waiting_for_seed_source_text(source_description, why), "spec.seed copies this repository's initial contents from "@ + source_description),
        mentions(waiting_for_seed_source_text(source_description, why), ", but "@ + why),
{
    let text = waiting_for_seed_source_text(source_description, why);
    let head = Seq::<char>::empty();
    let part = "spec.seed copies this repository's initial contents from "@ + source_description;
    let tail = text.skip((head + part).len() as int);
    assert(text =~= head + part + tail);
    part_is_mentioned(head, part, tail);
    let head = "spec.seed copies this repository's initial contents from "@ + source_description;
    let part = ", but "@ + why;
    let tail = text.skip((head + part).len() as int);
    assert(text =~= head + part + tail);
    part_is_mentioned(head, part, tail);
}

/// A source that no Job can mount is told with its path.
pub proof fn bare_path_seed_source_text_names_all(
    source_description: Seq<char>,
    path: Seq<char>,
)
    ensures
        mentions(bare_path_seed_source_text(source_description, path), "spec.seed reads from "@ + source_description),
        mentions(bare_path_seed_source_text(source_description, path), ", whose backend is a BARE-PATH filesystem repository (path `"@ + path),
{
    let text = bare_path_seed_source_text(source_description, path);
    let head = Seq::<char>::empty();
    let part = "spec.seed reads from "@ + source_description;
    let tail = text.skip((head + part).len() as int);
    assert(text =~= head + part + tail);
    part_is_mentioned(head, part, tail);
    let head = "spec.seed reads from "@ + source_description;
    let part = ", whose backend is a BARE-PATH filesystem repository (path `"@ + path;
    let tail = text.skip((head + part).len() as int);
    assert(text =~= head + part + tail);
    part_is_mentioned(head, part, tail);
}

/// A seed that would read what it writes is told with its source and its
/// storage.
pub proof fn seed_source_same_storage_text_names_all(
    source_description: Seq<char>,
    kind: Seq<char>,
)
    ensures
        mentions(seed_source_same_storage_text(source_description, kind), "spec.seed reads from "@ + source_description),
        mentions(seed_source_same_storage_text(source_description, kind), ", which resolves to this repository's own "@ + kind),
{
    let text = seed_source_same_storage_text(source_description, kind);
    let head = Seq::<char>::empty();
    let part = "spec.seed reads from "@ + source_description;
    let tail = text.skip((head + part).len() as int);
    assert(text =~= head + part + tail);
    part_is_mentioned(head, part, tail);
    let head = "spec.seed reads from "@ + source_description;
    let part = ", which resolves to this repository's own "@ + kind;
    let tail = text.skip((head + part).len() as int);
    assert(text =~= head + part + tail);
    part_is_mentioned(head, part, tail);
}

/// Two volumes at one path are told with the source and the path.
pub proof fn seed_mount_path_collision_text_names_all(
    source_description: Seq<char>,
    path: Seq<char>,
)
    ensures
        mentions(seed_mount_path_collision_text(source_description, path), "spec.seed reads from "@ + source_description),
        mentions(seed_mount_path_collision_text(source_description, path), ", whose filesystem backend mounts at "@ + debug_text(path)),
{
    let text = seed_mount_path_collision_text(source_description, path);
    let head = Seq::<char>::empty();
    let part = "spec.seed reads from "@ + source_description;
    let tail = text.skip((head + part).len() as int);
    assert(text =~= head + part + tail);
    part_is_mentioned(head, part, tail);
    let head = "spec.seed reads from "@ + source_description;
    let part = ", whose filesystem backend mounts at "@ + debug_text(path);
    let tail = text.skip((head + part).len() as int);
    assert(text =~= head + part + tail);
    part_is_mentioned(head, part, tail);
}

/// Credentials that clash are told with the source and the detail.
pub proof fn seed_source_auth_conflict_text_names_all(
    source_description: Seq<char>,
    detail: Seq<char>,
)
    ensures
        mentions(seed_source_auth_conflict_text(source_description, detail), "spec.seed copies this repository's initial contents from "@ + source_description),
        mentions(seed_source_auth_conflict_text(source_description, detail), ", but the two backends' credentials cannot share one seeding pod: "@ + detail),
{
    let text = seed_source_auth_conflict_text(source_description, detail);
    let head = Seq::<char>::empty();
    let part = "spec.seed copies this repository's initial contents from "@ + source_description;
    let tail = text.skip((head + part).len() as int);
    assert(text =~= head + part + tail);
    part_is_mentioned(head, part, tail);
    let head = "spec.seed copies this repository's initial contents from "@ + source_description;
    let part = ", but the two backends' credentials cannot share one seeding pod: "@ + detail;
    let tail = text.skip((head + part).len() as int);
    assert(text =~= head + part + tail);
    part_is_mentioned(head, part, tail);
}

} // verus!
