//! Pods, and whether those of a mover Job are stuck before they start.
use crate::lists::{first_where, first_where_is};
use crate::security::{PodSecurityContext, SecurityContext};
use crate::text::{is_text, mentions, opt_text, part_is_mentioned, same_text};
use vstd::prelude::*;
use vstd::string::StringExecFns;

verus! {

/// A container of a pod. `volume_mounts` names the volumes that it mounts.
pub struct Container {
    pub name: String,
    pub security_context: Option<SecurityContext>,
    pub volume_mounts: Vec<String>,
}

/// A volume of a pod, with the claim that backs it.
pub struct Volume {
    pub name: String,
    pub claim: Option<String>,
}

/// What a container waits for.
pub struct Waiting {
    pub reason: Option<String>,
    pub message: Option<String>,
}

/// The state of a container.
pub struct ContainerStatus {
    pub name: String,
    pub waiting: Option<Waiting>,
}

/// A condition of a pod.
pub struct PodCondition {
    pub type_: String,
    pub status: String,
    pub reason: Option<String>,
    pub message: Option<String>,
}

/// The state of a pod.
pub struct PodStatus {
    pub phase: Option<String>,
    pub init_container_statuses: Vec<ContainerStatus>,
    pub container_statuses: Vec<ContainerStatus>,
    pub conditions: Vec<PodCondition>,
}

/// A pod. `managed_by` is the value of its managed-by label; `created` is when
/// it was created, in seconds since the epoch.
pub struct Pod {
    pub name: Option<String>,
    pub generate_name: Option<String>,
    pub namespace: Option<String>,
    pub managed_by: Option<String>,
    pub created: Option<i64>,
    pub containers: Vec<Container>,
    pub volumes: Vec<Volume>,
    pub security_context: Option<PodSecurityContext>,
    pub status: Option<PodStatus>,
}

/// Whether a container will not start without a change of its spec, from what
/// it waits for.
pub open spec fn wedging(reason: Seq<char>) -> bool {
    ||| reason == "CreateContainerConfigError"@
    ||| reason == "CreateContainerError"@
    ||| reason == "RunContainerError"@
    ||| reason == "ErrImagePull"@
    ||| reason == "ImagePullBackOff"@
    ||| reason == "InvalidImageName"@
    ||| reason == "ErrImageNeverPull"@
}

fn is_wedging(reason: &str) -> (yes: bool)
    ensures
        yes == wedging(reason@),
{
    same_text(reason, "CreateContainerConfigError") || same_text(reason, "CreateContainerError")
        || same_text(reason, "RunContainerError") || same_text(reason, "ErrImagePull") || same_text(
        reason,
        "ImagePullBackOff",
    ) || same_text(reason, "InvalidImageName") || same_text(reason, "ErrImageNeverPull")
}

/// The text of [`wedge_bare`].
pub open spec fn wedge_bare_text(name: Seq<char>, reason: Seq<char>) -> Seq<char> {
    "container `"@
        + name
        + "`: "@
        + reason
}

/// Words a wedged container without detail.
fn wedge_bare(name: &str, reason: &str) -> (message: String)
    ensures
        message@ == wedge_bare_text(name@, reason@),
{
    let mut message = "container `".to_owned();
    message.append(name);
    message.append("`: ");
    message.append(reason);
    message
}

/// The text of [`wedge_detailed`].
pub open spec fn wedge_detailed_text(name: Seq<char>, reason: Seq<char>, detail: Seq<char>) -> Seq<char> {
    "container `"@
        + name
        + "`: "@
        + reason
        + " — "@
        + detail
}

/// Words a wedged container with its detail.
fn wedge_detailed(name: &str, reason: &str, detail: &str) -> (message: String)
    ensures
        message@ == wedge_detailed_text(name@, reason@, detail@),
{
    let mut message = "container `".to_owned();
    message.append(name);
    message.append("`: ");
    message.append(reason);
    message.append(" — ");
    message.append(detail);
    message
}

/// Why a pod is stuck: a reason, and words for a reader.
pub struct WedgeReason {
    pub reason: String,
    pub message: String,
}

/// A stuck pod's reason and words.
#[verifier::ext_equal]
pub struct WedgeReasonView {
    pub reason: Seq<char>,
    pub message: Seq<char>,
}

impl View for WedgeReason {
    type V = WedgeReasonView;

    open spec fn view(&self) -> WedgeReasonView {
        WedgeReasonView { reason: self.reason@, message: self.message@ }
    }
}

/// Whether a container waits for what will not come.
pub open spec fn container_wedged(cs: ContainerStatus) -> bool {
    cs.waiting is Some && cs.waiting->0.reason is Some && wedging(cs.waiting->0.reason->0@)
}

/// Why a container is stuck, where it is.
pub open spec fn container_wedge(cs: ContainerStatus) -> WedgeReasonView {
    let reason = cs.waiting->0.reason->0@;
    let detail = cs.waiting->0.message;
    WedgeReasonView {
        reason,
        message: if detail is Some && detail->0@.len() > 0 {
            wedge_detailed_text(cs.name@, reason, detail->0@)
        } else {
            wedge_bare_text(cs.name@, reason)
        },
    }
}

/// Whether a condition says that no node takes the pod.
pub open spec fn unschedulable(c: PodCondition) -> bool {
    c.type_@ == "PodScheduled"@ && c.status@ == "False"@ && opt_text(c.reason) == Some(
        "Unschedulable"@,
    )
}

/// Why a pod is stuck: the first container that waits for what will not come,
/// init containers first, or else that no node takes it.
pub open spec fn pod_wedge(pod: Pod) -> Option<WedgeReasonView> {
    match pod.status {
        None => None,
        Some(s) => {
            let statuses = s.init_container_statuses@ + s.container_statuses@;
            let at = first_where(statuses, |cs: ContainerStatus| container_wedged(cs));
            let cond = first_where(s.conditions@, |c: PodCondition| unschedulable(c));
            if at < statuses.len() {
                Some(container_wedge(statuses[at]))
            } else if cond < s.conditions@.len() {
                Some(
                    WedgeReasonView {
                        reason: "Unschedulable"@,
                        message: match s.conditions@[cond].message {
                            Some(m) => m@,
                            None => "pod is unschedulable"@,
                        },
                    },
                )
            } else {
                None
            }
        },
    }
}

fn wedged_container(cs: &ContainerStatus) -> (found: Option<WedgeReason>)
    ensures
        found is Some <==> container_wedged(*cs),
        found is Some ==> found->0@ == container_wedge(*cs),
{
    match &cs.waiting {
        None => None,
        Some(w) => match &w.reason {
            None => {
                None
            },
            Some(reason) => {
                if !is_wedging(reason.as_str()) {
                    return None;
                }
                let message = match &w.message {
                    Some(detail) => if same_text(detail.as_str(), "") {
                        proof {
                            reveal_strlit("");
                        }
                        wedge_bare(cs.name.as_str(), reason.as_str())
                    } else {
                        proof {
                            reveal_strlit("");
                            if detail@.len() == 0 {
                                assert(detail@ =~= ""@);
                            }
                        }
                        wedge_detailed(cs.name.as_str(), reason.as_str(), detail.as_str())
                    },
                    None => wedge_bare(cs.name.as_str(), reason.as_str()),
                };
                Some(WedgeReason { reason: reason.clone(), message })
            },
        },
    }
}

fn first_wedged(list: &Vec<ContainerStatus>) -> (found: Option<WedgeReason>)
    ensures
        ({
            let at = first_where(list@, |cs: ContainerStatus| container_wedged(cs));
            &&& found is Some <==> at < list@.len()
            &&& found is Some ==> 0 <= at && found->0@ == container_wedge(list@[at])
        }),
{
    let ghost p = |cs: ContainerStatus| container_wedged(cs);
    let mut i: usize = 0;
    while i < list.len()
        invariant
            i <= list.len(),
            p == (|cs: ContainerStatus| container_wedged(cs)),
            forall|j: int| 0 <= j < i ==> !p(#[trigger] list@[j]),
        decreases list.len() - i,
    {
        let found = wedged_container(&list[i]);
        if found.is_some() {
            proof {
                first_where_is(list@, p, i as int);
            }
            return found;
        }
        i = i + 1;
    }
    proof {
        first_where_is(list@, p, i as int);
    }
    None
}

proof fn first_of_two<T>(a: Seq<T>, b: Seq<T>, p: spec_fn(T) -> bool)
    ensures
        0 <= first_where(a, p) <= a.len(),
        first_where(a, p) < a.len() ==> first_where(a + b, p) == first_where(a, p),
        first_where(a, p) == a.len() ==> first_where(a + b, p) == a.len() + first_where(b, p),
    decreases a.len(),
{
    if a.len() == 0 {
        assert(a + b =~= b);
    } else {
        assert((a + b).skip(1) =~= a.skip(1) + b);
        first_of_two(a.skip(1), b, p);
    }
}

/// Why a pod is stuck, where it is.
pub fn pod_wedge_reason(pod: &Pod) -> (found: Option<WedgeReason>)
    ensures
        found is Some <==> pod_wedge(*pod) is Some,
        found is Some ==> found->0@ == pod_wedge(*pod)->0,
{
    match &pod.status {
        None => None,
        Some(s) => {
            proof {
                let p = |cs: ContainerStatus| container_wedged(cs);
                first_of_two(s.init_container_statuses@, s.container_statuses@, p);
                first_of_two(s.container_statuses@, Seq::empty(), p);
            }
            let init = first_wedged(&s.init_container_statuses);
            if init.is_some() {
                return init;
            }
            let regular = first_wedged(&s.container_statuses);
            if regular.is_some() {
                return regular;
            }
            let ghost q = |c: PodCondition| unschedulable(c);
            let mut i: usize = 0;
            while i < s.conditions.len()
                invariant
                    i <= s.conditions.len(),
                    q == (|c: PodCondition| unschedulable(c)),
                    forall|j: int| 0 <= j < i ==> !q(#[trigger] s.conditions@[j]),
                    pod.status == Some(*s),
                    first_where(
                        s.init_container_statuses@ + s.container_statuses@,
                        |cs: ContainerStatus| container_wedged(cs),
                    ) == (s.init_container_statuses@ + s.container_statuses@).len(),
                decreases s.conditions.len() - i,
            {
                let c = &s.conditions[i];
                if same_text(c.type_.as_str(), "PodScheduled") && same_text(
                    c.status.as_str(),
                    "False",
                ) && is_text(&c.reason, "Unschedulable") {
                    proof {
                        first_where_is(s.conditions@, q, i as int);
                    }
                    let message = match &c.message {
                        Some(m) => m.clone(),
                        None => "pod is unschedulable".to_owned(),
                    };
                    return Some(WedgeReason { reason: "Unschedulable".to_owned(), message });
                }
                i = i + 1;
            }
            proof {
                first_where_is(s.conditions@, q, i as int);
            }
            None
        },
    }
}

/// What the pods of an unfinished mover Job say of it.
#[derive(Debug, PartialEq, Eq)]
pub enum WedgedVerdict {
    /// No pod is stuck.
    Progressing,
    /// A pod is stuck, but not for long enough yet.
    Within { reason: String },
    /// A pod has been stuck for too long.
    Wedged { reason: String, message: String },
}

/// How old a pod is; one without a creation time counts as new.
pub open spec fn pod_age(pod: Pod, now: int) -> int {
    match pod.created {
        Some(t) => now - t,
        None => 0,
    }
}

/// Whether a pod has been stuck for longer than the grace period.
pub open spec fn stuck_too_long(pod: Pod, grace: int, now: int) -> bool {
    pod_wedge(pod) is Some && pod_age(pod, now) > grace
}

/// Decides whether the pods of an unfinished mover Job are stuck: the first
/// that has outlasted the grace period fails the run; failing that, the first
/// that is stuck at all is told.
pub fn classify_wedged_pods(pods: &Vec<Pod>, grace_seconds: i64, now_unix: i64) -> (verdict:
    WedgedVerdict)
    requires
        forall|k: int|
            0 <= k < pods@.len() && (#[trigger] pods@[k]).created is Some ==> i64::MIN <= now_unix
                - pods@[k].created->0 <= i64::MAX,
    ensures
        ({
            let stuck = first_where(
                pods@,
                |p: Pod| stuck_too_long(p, grace_seconds as int, now_unix as int),
            );
            let early = first_where(pods@, |p: Pod| pod_wedge(p) is Some);
            if stuck < pods@.len() {
                &&& verdict is Wedged
                &&& verdict->Wedged_reason@ == pod_wedge(pods@[stuck])->0.reason
                &&& verdict->Wedged_message@ == pod_wedge(pods@[stuck])->0.message
            } else if early < pods@.len() {
                verdict is Within && verdict->Within_reason@ == pod_wedge(pods@[early])->0.reason
            } else {
                verdict is Progressing
            }
        }),
{
    let ghost late = |p: Pod| stuck_too_long(p, grace_seconds as int, now_unix as int);
    let ghost any = |p: Pod| pod_wedge(p) is Some;
    let mut within: Option<String> = None;
    let ghost mut seen: int = 0;
    let mut i: usize = 0;
    while i < pods.len()
        invariant
            i <= pods.len(),
            late == (|p: Pod| stuck_too_long(p, grace_seconds as int, now_unix as int)),
            any == (|p: Pod| pod_wedge(p) is Some),
            forall|j: int| 0 <= j < i ==> !late(#[trigger] pods@[j]),
            within is None ==> forall|j: int| 0 <= j < i ==> !any(#[trigger] pods@[j]),
            within is Some ==> 0 <= seen < i && any(pods@[seen]) && within->0@ == pod_wedge(
                pods@[seen],
            )->0.reason,
            within is Some ==> forall|j: int| 0 <= j < seen ==> !any(#[trigger] pods@[j]),
            forall|k: int|
                0 <= k < pods@.len() && (#[trigger] pods@[k]).created is Some ==> i64::MIN
                    <= now_unix - pods@[k].created->0 <= i64::MAX,
        decreases pods.len() - i,
    {
        if let Some(found) = pod_wedge_reason(&pods[i]) {
            let age: i64 = match pods[i].created {
                Some(t) => now_unix - t,
                None => 0,
            };
            if age > grace_seconds {
                proof {
                    first_where_is(pods@, late, i as int);
                }
                return WedgedVerdict::Wedged { reason: found.reason, message: found.message };
            }
            if within.is_none() {
                proof {
                    seen = i as int;
                }
                within = Some(found.reason);
            }
        }
        i = i + 1;
    }
    proof {
        first_where_is(pods@, late, i as int);
        if within is Some {
            first_where_is(pods@, any, seen);
        } else {
            first_where_is(pods@, any, i as int);
        }
    }
    match within {
        Some(reason) => WedgedVerdict::Within { reason },
        None => WedgedVerdict::Progressing,
    }
}

/// A pod that waits for something transient, and that some node takes, fails
/// no run, however old it is.
pub proof fn slow_start_is_no_wedge(pod: Pod, grace: int, now: int)
    requires
        pod.status is Some,
        forall|k: int|
            0 <= k < pod.status->0.init_container_statuses@.len() ==> !container_wedged(
                #[trigger] pod.status->0.init_container_statuses@[k],
            ),
        forall|k: int|
            0 <= k < pod.status->0.container_statuses@.len() ==> !container_wedged(
                #[trigger] pod.status->0.container_statuses@[k],
            ),
        forall|k: int|
            0 <= k < pod.status->0.conditions@.len() ==> !unschedulable(
                #[trigger] pod.status->0.conditions@[k],
            ),
    ensures
        pod_wedge(pod) is None,
        !stuck_too_long(pod, grace, now),
{
    let s = pod.status->0;
    let statuses = s.init_container_statuses@ + s.container_statuses@;
    let p = |cs: ContainerStatus| container_wedged(cs);
    assert forall|j: int| 0 <= j < statuses.len() implies !p(#[trigger] statuses[j]) by {
        if j < s.init_container_statuses@.len() {
            assert(statuses[j] == s.init_container_statuses@[j]);
        } else {
            assert(statuses[j] == s.container_statuses@[j - s.init_container_statuses@.len()]);
        }
    }
    first_where_is(statuses, p, statuses.len() as int);
    first_where_is(
        s.conditions@,
        |c: PodCondition| unschedulable(c),
        s.conditions@.len() as int,
    );
}

/// Waiting longer never takes a failure back: pods that fail a run now fail it
/// at any later time.
pub proof fn wedge_only_grows(pod: Pod, grace: int, now: int, later: int)
    requires
        stuck_too_long(pod, grace, now),
        later >= now,
    ensures
        stuck_too_long(pod, grace, later),
{
}

/// A container that is only slow is not stuck: creating it, or its pod, is not
/// among what never comes. An image that cannot be pulled and a container that
/// cannot be made or run are.
pub proof fn slow_is_not_stuck()
    ensures
        !wedging("ContainerCreating"@),
        !wedging("PodInitializing"@),
        !wedging(""@),
        wedging("ImagePullBackOff"@) && wedging("ErrImagePull"@) && wedging("InvalidImageName"@)
            && wedging("ErrImageNeverPull"@),
        wedging("CreateContainerConfigError"@) && wedging("CreateContainerError"@) && wedging(
            "RunContainerError"@,
        ),
{
    reveal_strlit("ContainerCreating");
    reveal_strlit("PodInitializing");
    reveal_strlit("");
    reveal_strlit("CreateContainerConfigError");
    reveal_strlit("CreateContainerError");
    reveal_strlit("RunContainerError");
    reveal_strlit("ErrImagePull");
    reveal_strlit("ImagePullBackOff");
    reveal_strlit("InvalidImageName");
    reveal_strlit("ErrImageNeverPull");
    assert("ContainerCreating"@.len() == 17 && "PodInitializing"@.len() == 15 && ""@.len() == 0);
    assert("CreateContainerConfigError"@.len() == 26 && "CreateContainerError"@.len() == 20);
    assert("RunContainerError"@.len() == 17 && "ErrImagePull"@.len() == 12);
    assert("ImagePullBackOff"@.len() == 16 && "InvalidImageName"@.len() == 16);
    assert("ErrImageNeverPull"@.len() == 17);
    assert("ContainerCreating"@[0] == 'C' && "RunContainerError"@[0] == 'R');
    assert("ErrImageNeverPull"@[0] == 'E');
}

proof fn first_where_bounds<T>(s: Seq<T>, p: spec_fn(T) -> bool)
    ensures
        0 <= first_where(s, p) <= s.len(),
        first_where(s, p) < s.len() ==> p(s[first_where(s, p)]),
        forall|j: int| 0 <= j < first_where(s, p) ==> !p(#[trigger] s[j]),
    decreases s.len(),
{
    if s.len() > 0 && !p(s[0]) {
        let rest = s.skip(1);
        first_where_bounds(rest, p);
        assert forall|j: int| 0 <= j < first_where(s, p) implies !p(#[trigger] s[j]) by {
            if j > 0 {
                assert(s[j] == rest[j - 1]);
            }
        }
    }
}

/// A pod is stuck exactly where one of its containers waits for what never
/// comes or no node takes it. It is told by the first such container, one that
/// prepares the pod before one that runs in it, and by the scheduler only where
/// no container is stuck.
pub proof fn stuck_pod_is_told_by_its_first_stuck_container(pod: Pod)
    requires
        pod.status is Some,
    ensures
        ({
            let s = pod.status->0;
            let all = s.init_container_statuses@ + s.container_statuses@;
            let quiet = forall|k: int| 0 <= k < all.len() ==> !container_wedged(#[trigger] all[k]);
            let placed = forall|k: int|
                0 <= k < s.conditions@.len() ==> !unschedulable(#[trigger] s.conditions@[k]);
            let told = pod_wedge(pod);
            &&& told is None <==> quiet && placed
            &&& !quiet ==> exists|k: int|
                0 <= k < all.len() && container_wedged(#[trigger] all[k]) && told->0.reason
                    == all[k].waiting->0.reason->0@ && told->0 == container_wedge(all[k])
                    && forall|j: int| 0 <= j < k ==> !container_wedged(#[trigger] all[j])
            &&& quiet && !placed ==> told->0.reason == "Unschedulable"@ && exists|k: int|
                0 <= k < s.conditions@.len() && unschedulable(#[trigger] s.conditions@[k]) && (
                s.conditions@[k].message is Some ==> told->0.message
                    == s.conditions@[k].message->0@)
        }),
{
    let s = pod.status->0;
    let all = s.init_container_statuses@ + s.container_statuses@;
    let p = |cs: ContainerStatus| container_wedged(cs);
    let q = |c: PodCondition| unschedulable(c);
    first_where_bounds(all, p);
    first_where_bounds(s.conditions@, q);
    let at = first_where(all, p);
    let cond = first_where(s.conditions@, q);
    assert forall|j: int| 0 <= j < at implies !container_wedged(#[trigger] all[j]) by {
        assert(!p(all[j]));
    }
    assert forall|j: int| 0 <= j < cond implies !unschedulable(#[trigger] s.conditions@[j]) by {
        assert(!q(s.conditions@[j]));
    }
    if at < all.len() {
        assert(container_wedged(all[at]));
    } else if cond < s.conditions@.len() {
        assert(unschedulable(s.conditions@[cond]));
    }
}

/// A pod without a status is not stuck, and one that is stuck fails its run
/// only once it is older than the grace; a pod that does not say when it was
/// created counts as new.
pub proof fn stuck_pod_fails_after_the_grace(pod: Pod, grace: int, now: int)
    ensures
        pod.status is None ==> pod_wedge(pod) is None,
        pod.created is Some ==> (stuck_too_long(pod, grace, now) <==> pod_wedge(pod) is Some && now
            > pod.created->0 + grace),
        pod.created is None ==> (stuck_too_long(pod, grace, now) <==> pod_wedge(pod) is Some
            && grace < 0),
{
}

/// A container is stuck where it waits for one of the reasons that never go
/// away, and no node takes a pod where the scheduler says so.
pub proof fn stuck_container_waits(cs: ContainerStatus, c: PodCondition)
    ensures
        container_wedged(cs) ==> cs.waiting is Some && cs.waiting->0.reason is Some,
        cs.waiting is Some && cs.waiting->0.reason is Some ==> (container_wedged(cs) <==> wedging(
            cs.waiting->0.reason->0@,
        )),
        unschedulable(c) <==> c.type_@ == "PodScheduled"@ && c.status@ == "False"@ && c.reason
            is Some && c.reason->0@ == "Unschedulable"@,
{
}

/// What is said of a stuck container names it, its reason and, where it gives
/// one, its detail.
pub proof fn stuck_container_is_named(cs: ContainerStatus)
    requires
        container_wedged(cs),
    ensures
        ({
            let told = container_wedge(cs);
            let detail = cs.waiting->0.message;
            &&& told.reason == cs.waiting->0.reason->0@
            &&& mentions(told.message, cs.name@)
            &&& mentions(told.message, told.reason)
            &&& detail is Some && detail->0@.len() > 0 ==> mentions(told.message, detail->0@)
        }),
{
    let told = container_wedge(cs);
    let name = cs.name@;
    let reason = told.reason;
    let detail = cs.waiting->0.message;
    let a = "container `"@;
    let b = "`: "@;
    if detail is Some && detail->0@.len() > 0 {
        let d = detail->0@;
        assert(told.message =~= a + name + (b + reason + " — "@ + d));
        part_is_mentioned(a, name, b + reason + " — "@ + d);
        assert(told.message =~= (a + name + b) + reason + (" — "@ + d));
        part_is_mentioned(a + name + b, reason, " — "@ + d);
        assert(told.message =~= (a + name + b + reason + " — "@) + d + Seq::empty());
        part_is_mentioned(a + name + b + reason + " — "@, d, Seq::empty());
    } else {
        assert(told.message =~= a + name + (b + reason));
        part_is_mentioned(a, name, b + reason);
        assert(told.message =~= (a + name + b) + reason + Seq::empty());
        part_is_mentioned(a + name + b, reason, Seq::empty());
    }
}

} // verus!
