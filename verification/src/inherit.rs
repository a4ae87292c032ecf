//! Whose identity a mover takes over: which pod and container it reads, what
//! stands in for a workload that is not there, and how the two layers merge.
use crate::error::{Error, ErrorView};
use crate::inherit_messages::{
    no_consumer_message, no_consumer_text, no_matching_pod_message, no_matching_pod_text,
    no_such_container_message, no_such_container_text, nothing_to_inherit_message,
    nothing_to_inherit_text,
};
use crate::labels::MANAGED_BY_VALUE;
use crate::lists::{first_where, first_where_is};
use crate::pods::{Container, Pod};
use crate::security::{
    contexts_pin_identity, container_view, copy_container, copy_pod, effective_run_as_user,
    effective_user, identity_pinned, pair_view, pod_view, ContainerContextView, InheritedContexts,
    PodContextView,
};
use crate::text::{
    bytes_before_irreflexive, bytes_before_total, bytes_before_transitive, is_text, opt_str,
    opt_text, precedes, same_text, text_before, texts,
};
use vstd::prelude::*;
use vstd::utf8::{encode_utf8, encode_utf8_decode_utf8};

verus! {

/// One successful read of a workload: its contexts, and where they were read.
pub struct InheritSource {
    pub contexts: InheritedContexts,
    pub pod: String,
    pub container: Option<String>,
}

/// One successful read of a workload: its contexts, and where they were read.
#[verifier::ext_equal]
pub struct InheritSourceView {
    pub contexts: (Option<ContainerContextView>, Option<PodContextView>),
    pub pod: Seq<char>,
    pub container: Option<Seq<char>>,
}

impl View for InheritSource {
    type V = InheritSourceView;

    open spec fn view(&self) -> InheritSourceView {
        InheritSourceView {
            contexts: pair_view(self.contexts),
            pod: self.pod@,
            container: opt_text(self.container),
        }
    }
}

impl InheritSource {
    /// The user that the workload's contexts pin.
    pub fn uid(&self) -> (uid: Option<i64>)
        ensures
            uid == effective_user(self@.contexts.0, self@.contexts.1),
    {
        effective_run_as_user(&self.contexts.0, &self.contexts.1)
    }

    /// Whether reading the workload gave anything that movers do not have
    /// anyway.
    pub fn pins_identity(&self) -> (pinned: bool)
        ensures
            pinned == identity_pinned(self@.contexts.0, self@.contexts.1),
    {
        contexts_pin_identity(&self.contexts.0, &self.contexts.1)
    }
}

/// What a pod is called: its name, or else the prefix of the name it will get.
pub open spec fn pod_title(pod: Pod) -> Seq<char> {
    match pod.name {
        Some(n) => n@,
        None => match pod.generate_name {
            Some(n) => n@,
            None => Seq::empty(),
        },
    }
}

fn title_of(pod: &Pod) -> (title: String)
    ensures
        title@ == pod_title(*pod),
{
    match &pod.name {
        Some(n) => n.clone(),
        None => match &pod.generate_name {
            Some(n) => n.clone(),
            None => String::new(),
        },
    }
}

/// Whether a pod runs.
pub open spec fn running(pod: Pod) -> bool {
    pod.status is Some && opt_text(pod.status->0.phase) == Some("Running"@)
}

fn pod_is_running(pod: &Pod) -> (yes: bool)
    ensures
        yes == running(*pod),
{
    match &pod.status {
        Some(s) => is_text(&s.phase, "Running"),
        None => false,
    }
}

/// Whether a volume of the pod is backed by the claim.
pub open spec fn backs(pod: Pod, k: int, claim: Seq<char>) -> bool {
    0 <= k < pod.volumes@.len() && opt_text(pod.volumes@[k].claim) == Some(claim)
}

/// Whether a pod mounts a claim.
pub open spec fn mounts_claim(pod: Pod, claim: Seq<char>) -> bool {
    exists|k: int| #[trigger] backs(pod, k, claim)
}

/// Whether a container mounts a volume that the claim backs.
pub open spec fn container_mounts(pod: Pod, i: int, claim: Seq<char>) -> bool {
    0 <= i < pod.containers@.len() && exists|k: int| #[trigger]
        backs(pod, k, claim) && texts(pod.containers@[i].volume_mounts@).contains(
            pod.volumes@[k].name@,
        )
}

/// Whether a container is the only one that mounts the claim.
pub open spec fn sole_mounter(pod: Pod, claim: Seq<char>, i: int) -> bool {
    container_mounts(pod, i, claim) && forall|j: int| #[trigger]
        container_mounts(pod, j, claim) ==> j == i
}

/// Whether a pod mounts a claim.
pub fn pod_mounts_claim(pod: &Pod, claim: &str) -> (yes: bool)
    ensures
        yes == mounts_claim(*pod, claim@),
{
    let mut k: usize = 0;
    while k < pod.volumes.len()
        invariant
            k <= pod.volumes.len(),
            forall|j: int| 0 <= j < k ==> !#[trigger] backs(*pod, j, claim@),
        decreases pod.volumes.len() - k,
    {
        if is_text(&pod.volumes[k].claim, claim) {
            assert(backs(*pod, k as int, claim@));
            return true;
        }
        k = k + 1;
    }
    false
}

fn holds_text(list: &Vec<String>, text: &str) -> (yes: bool)
    ensures
        yes == texts(list@).contains(text@),
{
    let mut i: usize = 0;
    while i < list.len()
        invariant
            i <= list.len(),
            forall|j: int| 0 <= j < i ==> #[trigger] texts(list@)[j] != text@,
        decreases list.len() - i,
    {
        if same_text(list[i].as_str(), text) {
            assert(texts(list@)[i as int] == text@);
            return true;
        }
        i = i + 1;
    }
    false
}

fn mounts_by(pod: &Pod, i: usize, claim: &str) -> (yes: bool)
    requires
        i < pod.containers@.len(),
    ensures
        yes == container_mounts(*pod, i as int, claim@),
{
    let mut k: usize = 0;
    while k < pod.volumes.len()
        invariant
            i < pod.containers@.len(),
            k <= pod.volumes.len(),
            forall|j: int|
                0 <= j < k ==> !(#[trigger] backs(*pod, j, claim@) && texts(
                    pod.containers@[i as int].volume_mounts@,
                ).contains(pod.volumes@[j].name@)),
        decreases pod.volumes.len() - k,
    {
        if is_text(&pod.volumes[k].claim, claim) && holds_text(
            &pod.containers[i].volume_mounts,
            pod.volumes[k].name.as_str(),
        ) {
            assert(backs(*pod, k as int, claim@));
            return true;
        }
        k = k + 1;
    }
    false
}

fn container_mounting_claim(pod: &Pod, claim: &str) -> (found: Option<usize>)
    ensures
        found is Some ==> sole_mounter(*pod, claim@, found->0 as int),
        found is None ==> forall|i: int| !#[trigger] sole_mounter(*pod, claim@, i),
{
    let mut found: Option<usize> = None;
    let mut i: usize = 0;
    while i < pod.containers.len()
        invariant
            i <= pod.containers.len(),
            match found {
                Some(f) => f < i && container_mounts(*pod, f as int, claim@) && forall|j: int|
                    0 <= j < i && j != f ==> !#[trigger] container_mounts(*pod, j, claim@),
                None => forall|j: int|
                    0 <= j < i ==> !#[trigger] container_mounts(*pod, j, claim@),
            },
        decreases pod.containers.len() - i,
    {
        if mounts_by(pod, i, claim) {
            if let Some(f) = found {
                assert forall|k: int| !#[trigger] sole_mounter(*pod, claim@, k) by {
                    assert(container_mounts(*pod, f as int, claim@));
                    assert(container_mounts(*pod, i as int, claim@));
                }
                return None;
            }
            found = Some(i);
        }
        i = i + 1;
    }
    found
}

/// The containers of a name.
pub open spec fn has_name(name: Seq<char>) -> spec_fn(Container) -> bool {
    |c: Container| c.name@ == name
}

/// The container to read: the named one, where there is one of that name; else
/// the only one that mounts the claim; else the first.
pub open spec fn chosen_container(
    pod: Pod,
    container: Option<Seq<char>>,
    claim: Option<Seq<char>>,
) -> Option<int> {
    let n = pod.containers@.len();
    match container {
        Some(name) => {
            let at = first_where(pod.containers@, has_name(name));
            if at < n {
                Some(at)
            } else {
                None
            }
        },
        None => if claim is Some && exists|i: int| #[trigger] sole_mounter(pod, claim->0, i) {
            Some(choose|i: int| #[trigger] sole_mounter(pod, claim->0, i))
        } else if n > 0 {
            Some(0)
        } else {
            None
        },
    }
}

/// What reading one pod comes to: its contexts, or what is said where the
/// named container is absent or there is nothing to inherit.
pub open spec fn extracted(
    pod: Pod,
    container: Option<Seq<char>>,
    claim: Option<Seq<char>>,
    ns: Seq<char>,
) -> Result<InheritSourceView, ErrorView> {
    let chosen = chosen_container(pod, container, claim);
    let sc = match chosen {
        Some(i) => container_view(pod.containers@[i].security_context),
        None => None,
    };
    let psc = pod_view(pod.security_context);
    if container is Some && chosen is None {
        Err(
            ErrorView::MissingDependency(
                no_such_container_text(pod_title(pod), ns, container->0),
            ),
        )
    } else if sc is None && psc is None {
        Err(ErrorView::MissingDependency(nothing_to_inherit_text(pod_title(pod), ns)))
    } else {
        Ok(
            InheritSourceView {
                contexts: (sc, psc),
                pod: pod_title(pod),
                container: match chosen {
                    Some(i) => Some(pod.containers@[i].name@),
                    None => None,
                },
            },
        )
    }
}

/// What a result says.
pub open spec fn source_view(r: Result<InheritSource, Error>) -> Result<
    InheritSourceView,
    ErrorView,
> {
    match r {
        Ok(s) => Ok(s@),
        Err(e) => Err(e@),
    }
}

fn named_container(pod: &Pod, name: &str) -> (found: Option<usize>)
    ensures
        ({
            let at = first_where(pod.containers@, has_name(name@));
            &&& found is Some <==> at < pod.containers@.len()
            &&& found is Some ==> found->0 as int == at
        }),
{
    let ghost p = has_name(name@);
    let mut i: usize = 0;
    while i < pod.containers.len()
        invariant
            i <= pod.containers.len(),
            p == has_name(name@),
            forall|j: int| 0 <= j < i ==> !p(#[trigger] pod.containers@[j]),
        decreases pod.containers.len() - i,
    {
        if same_text(pod.containers[i].name.as_str(), name) {
            proof {
                first_where_is(pod.containers@, p, i as int);
            }
            return Some(i);
        }
        i = i + 1;
    }
    proof {
        first_where_is(pod.containers@, p, i as int);
    }
    None
}

/// Reads the contexts of one pod.
pub fn extract_inherited_contexts(
    pod: &Pod,
    container: Option<&str>,
    claim: Option<&str>,
    ns: &str,
) -> (source: Result<InheritSource, Error>)
    ensures
        source_view(source) == extracted(*pod, opt_str(container), opt_str(claim), ns@),
{
    let chosen: Option<usize> = match container {
        Some(name) => match named_container(pod, name) {
            Some(i) => Some(i),
            None => {
                let title = title_of(pod);
                return Err(
                    Error::MissingDependency(no_such_container_message(title.as_str(), ns, name)),
                );
            },
        },
        None => {
            let sole: Option<usize> = match claim {
                Some(c) => container_mounting_claim(pod, c),
                None => None,
            };
            if sole.is_some() {
                sole
            } else if pod.containers.len() > 0 {
                Some(0)
            } else {
                None
            }
        },
    };
    proof {
        if container is None && claim is Some && exists|k: int| #[trigger]
            sole_mounter(*pod, claim->0@, k) {
            let k = choose|k: int| #[trigger] sole_mounter(*pod, claim->0@, k);
            assert(container_mounts(*pod, k, claim->0@));
        }
    }
    assert(chosen is Some ==> chosen_container(*pod, opt_str(container), opt_str(claim)) == Some(
        chosen->0 as int,
    ));
    let sc = match chosen {
        Some(i) => copy_container(&pod.containers[i].security_context),
        None => None,
    };
    let psc = copy_pod(&pod.security_context);
    if sc.is_none() && psc.is_none() {
        let title = title_of(pod);
        return Err(Error::MissingDependency(nothing_to_inherit_message(title.as_str(), ns)));
    }
    let name = match chosen {
        Some(i) => Some(pod.containers[i].name.clone()),
        None => None,
    };
    Ok(InheritSource { contexts: (sc, psc), pod: title_of(pod), container: name })
}

/// What reading the pods that match a selector comes to: the first that runs
/// is read, or else the first.
pub open spec fn inherited_from_pods(
    pods: Seq<Pod>,
    container: Option<Seq<char>>,
    ns: Seq<char>,
    query: Seq<char>,
) -> Result<InheritSourceView, ErrorView> {
    let at = first_where(pods, |p: Pod| running(p));
    if pods.len() == 0 {
        Err(ErrorView::MissingDependency(no_matching_pod_text(query, ns)))
    } else if at < pods.len() {
        extracted(pods[at], container, None, ns)
    } else {
        extracted(pods[0], container, None, ns)
    }
}

/// Reads the contexts of a pod that matches a selector.
pub fn inherited_security_context_from_pods(
    pods: &Vec<Pod>,
    container: Option<&str>,
    ns: &str,
    query: &str,
) -> (source: Result<InheritSource, Error>)
    ensures
        source_view(source) == inherited_from_pods(pods@, opt_str(container), ns@, query@),
{
    if pods.len() == 0 {
        return Err(Error::MissingDependency(no_matching_pod_message(query, ns)));
    }
    let ghost p = |p: Pod| running(p);
    let mut i: usize = 0;
    while i < pods.len()
        invariant
            i <= pods.len(),
            p == (|p: Pod| running(p)),
            forall|j: int| 0 <= j < i ==> !p(#[trigger] pods@[j]),
            pods.len() > 0,
        decreases pods.len() - i,
    {
        if pod_is_running(&pods[i]) {
            proof {
                first_where_is(pods@, p, i as int);
            }
            return extract_inherited_contexts(&pods[i], container, None, ns);
        }
        i = i + 1;
    }
    proof {
        first_where_is(pods@, p, i as int);
    }
    extract_inherited_contexts(&pods[0], container, None, ns)
}

/// The namespace of a pod, for its place in the order.
pub open spec fn key_namespace(pod: Pod) -> Seq<char> {
    match pod.namespace {
        Some(n) => n@,
        None => ""@,
    }
}

/// The name of a pod, for its place in the order.
pub open spec fn key_name(pod: Pod) -> Seq<char> {
    match pod.name {
        Some(n) => n@,
        None => ""@,
    }
}

/// Whether one pod is read rather than another: one that runs before one that
/// does not, then by namespace and name.
pub open spec fn pod_before(a: Pod, b: Pod) -> bool {
    ||| running(a) && !running(b)
    ||| running(a) == running(b) && (text_before(key_namespace(a), key_namespace(b)) || (
    key_namespace(a) == key_namespace(b) && text_before(key_name(a), key_name(b))))
}

/// Whether a pod is a workload that consumes the claim: it mounts it, and is
/// none of the controller's own.
pub open spec fn consumes(pod: Pod, claim: Seq<char>) -> bool {
    mounts_claim(pod, claim) && opt_text(pod.managed_by) != Some(MANAGED_BY_VALUE@)
}

/// Whether a pod is the one that is read for a claim: no consumer comes before
/// it, and none of its rank stands earlier in the list.
pub open spec fn is_pick(pods: Seq<Pod>, claim: Seq<char>, i: int) -> bool {
    &&& 0 <= i < pods.len()
    &&& consumes(pods[i], claim)
    &&& forall|j: int|
        0 <= j < i && consumes(#[trigger] pods[j], claim) ==> pod_before(pods[i], pods[j])
    &&& forall|j: int|
        i <= j < pods.len() && consumes(#[trigger] pods[j], claim) ==> !pod_before(
            pods[j],
            pods[i],
        )
}

proof fn text_total(a: Seq<char>, b: Seq<char>)
    ensures
        text_before(a, b) || text_before(b, a) || a == b,
{
    bytes_before_total(encode_utf8(a), encode_utf8(b));
    encode_utf8_decode_utf8(a);
    encode_utf8_decode_utf8(b);
}

proof fn text_transitive(a: Seq<char>, b: Seq<char>, c: Seq<char>)
    ensures
        text_before(a, b) && text_before(b, c) ==> text_before(a, c),
        !text_before(a, a),
{
    if text_before(a, b) && text_before(b, c) {
        bytes_before_transitive(encode_utf8(a), encode_utf8(b), encode_utf8(c));
    }
    bytes_before_irreflexive(encode_utf8(a));
}

/// The order of pods is strict and transitive.
pub proof fn pod_order_is_strict(a: Pod, b: Pod, c: Pod)
    ensures
        !pod_before(a, a),
        pod_before(a, b) && pod_before(b, c) ==> pod_before(a, c),
{
    text_transitive(key_namespace(a), key_namespace(b), key_namespace(c));
    text_transitive(key_name(a), key_name(b), key_name(c));
}

/// Two pods neither of which comes before the other run alike, and have the
/// same namespace and name.
pub proof fn pod_order_is_total(a: Pod, b: Pod)
    ensures
        pod_before(a, b) || pod_before(b, a) || (running(a) == running(b) && key_namespace(a)
            == key_namespace(b) && key_name(a) == key_name(b)),
{
    text_total(key_namespace(a), key_namespace(b));
    text_total(key_name(a), key_name(b));
}

proof fn pod_order_splits(a: Pod, b: Pod, c: Pod)
    requires
        pod_before(a, c),
    ensures
        pod_before(a, b) || pod_before(b, c),
{
    pod_order_is_total(a, b);
    pod_order_is_strict(b, a, c);
}

/// At most one pod is the one that is read.
pub proof fn pick_is_unique(pods: Seq<Pod>, claim: Seq<char>, i: int, k: int)
    requires
        is_pick(pods, claim, i),
        is_pick(pods, claim, k),
    ensures
        i == k,
{
    if i < k {
        assert(consumes(pods[i], claim) && consumes(pods[k], claim));
    } else if k < i {
        assert(consumes(pods[i], claim) && consumes(pods[k], claim));
    }
}

fn key_before(a: &Pod, b: &Pod) -> (yes: bool)
    ensures
        yes == pod_before(*a, *b),
{
    let ra = pod_is_running(a);
    let rb = pod_is_running(b);
    if ra != rb {
        return ra;
    }
    let na = match &a.namespace {
        Some(n) => n.as_str(),
        None => "",
    };
    let nb = match &b.namespace {
        Some(n) => n.as_str(),
        None => "",
    };
    if precedes(na, nb) {
        return true;
    }
    if !same_text(na, nb) {
        return false;
    }
    let ta = match &a.name {
        Some(n) => n.as_str(),
        None => "",
    };
    let tb = match &b.name {
        Some(n) => n.as_str(),
        None => "",
    };
    precedes(ta, tb)
}

/// What reading the consumer of a claim comes to.
pub open spec fn inherited_from_consumer(
    pods: Seq<Pod>,
    claim: Seq<char>,
    ns: Seq<char>,
    container: Option<Seq<char>>,
) -> Result<InheritSourceView, ErrorView> {
    if exists|i: int| #[trigger] is_pick(pods, claim, i) {
        extracted(
            pods[choose|i: int| #[trigger] is_pick(pods, claim, i)],
            container,
            Some(claim),
            ns,
        )
    } else {
        Err(ErrorView::MissingDependency(no_consumer_text(claim, ns)))
    }
}

fn pick_consumer(pods: &Vec<Pod>, claim: &str) -> (pick: Option<usize>)
    ensures
        pick is Some ==> is_pick(pods@, claim@, pick->0 as int),
        pick is None ==> forall|k: int|
            0 <= k < pods@.len() ==> !consumes(#[trigger] pods@[k], claim@),
{
    let mut best: Option<usize> = None;
    let mut n: usize = 0;
    while n < pods.len()
        invariant
            n <= pods.len(),
            match best {
                Some(b) => b < n && is_pick(pods@.take(n as int), claim@, b as int),
                None => forall|k: int| 0 <= k < n ==> !consumes(#[trigger] pods@[k], claim@),
            },
        decreases pods.len() - n,
    {
        let ghost before = pods@.take(n as int);
        let ghost after = pods@.take(n + 1);
        proof {
            assert(forall|k: int| 0 <= k < n ==> #[trigger] after[k] == before[k]);
            assert(after[n as int] == pods@[n as int]);
        }
        let eligible = pod_mounts_claim(&pods[n], claim) && !is_text(
            &pods[n].managed_by,
            MANAGED_BY_VALUE,
        );
        let replace = match best {
            None => eligible,
            Some(b) => eligible && key_before(&pods[n], &pods[b]),
        };
        if replace {
            proof {
                assert forall|j: int| 0 <= j < n && consumes(#[trigger] after[j], claim@) implies
                    pod_before(after[n as int], after[j]) by {
                    if let Some(b) = best {
                        let bi = b as int;
                        assert(before[j] == after[j]);
                        if j < bi {
                            assert(pod_before(before[bi], before[j]));
                            pod_order_is_strict(after[n as int], after[bi], after[j]);
                        } else if j > bi {
                            assert(!pod_before(before[j], before[bi]));
                            pod_order_splits(after[n as int], after[j], after[bi]);
                        }
                    } else {
                        assert(after[j] == pods@[j]);
                    }
                }
                pod_order_is_strict(after[n as int], after[n as int], after[n as int]);
            }
            best = Some(n);
            assert(is_pick(pods@.take(n + 1), claim@, n as int));
        } else {
            proof {
                if let Some(b) = best {
                    let bi = b as int;
                    assert(before[bi] == after[bi]);
                    assert forall|j: int|
                        0 <= j < bi && consumes(#[trigger] after[j], claim@) implies pod_before(
                        after[bi],
                        after[j],
                    ) by {
                        assert(before[j] == after[j]);
                    }
                    assert forall|j: int|
                        bi <= j < after.len() && consumes(
                            #[trigger] after[j],
                            claim@,
                        ) implies !pod_before(after[j], after[bi]) by {
                        if j < n {
                            assert(before[j] == after[j]);
                        }
                    }
                    assert(is_pick(pods@.take(n + 1), claim@, b as int));
                }
            }
        }
        n = n + 1;
    }
    assert(pods@.take(n as int) =~= pods@);
    best
}

/// Reads the contexts of the workload that consumes a claim.
pub fn pvc_consumer_security_context_from_pods(
    pods: &Vec<Pod>,
    claim: &str,
    ns: &str,
    container: Option<&str>,
) -> (source: Result<InheritSource, Error>)
    ensures
        source_view(source) == inherited_from_consumer(pods@, claim@, ns@, opt_str(container)),
{
    match pick_consumer(pods, claim) {
        Some(i) => {
            proof {
                let c = choose|k: int| #[trigger] is_pick(pods@, claim@, k);
                pick_is_unique(pods@, claim@, i as int, c);
            }
            extract_inherited_contexts(&pods[i], container, Some(claim), ns)
        },
        None => Err(Error::MissingDependency(no_consumer_message(claim, ns))),
    }
}

/// A consumer that runs is read rather than one that does not.
pub proof fn running_consumer_is_preferred(pods: Seq<Pod>, claim: Seq<char>, i: int, k: int)
    requires
        is_pick(pods, claim, i),
        0 <= k < pods.len(),
        consumes(pods[k], claim),
        running(pods[k]),
    ensures
        running(pods[i]),
{
    if k < i {
        assert(pod_before(pods[i], pods[k]));
    } else {
        assert(!pod_before(pods[k], pods[i]));
    }
}

/// A mover never reads its own kind: the pod that is read is none of the
/// controller's own.
pub proof fn movers_are_never_read(pods: Seq<Pod>, claim: Seq<char>, i: int)
    requires
        is_pick(pods, claim, i),
    ensures
        opt_text(pods[i].managed_by) != Some(MANAGED_BY_VALUE@),
        mounts_claim(pods[i], claim),
{
}

/// Which pod is read does not depend on the order of the list: of two lists of
/// the same pods, pods of the same rank, namespace and name are read.
pub proof fn pick_ignores_order(
    a: Seq<Pod>,
    b: Seq<Pod>,
    claim: Seq<char>,
    i: int,
    k: int,
)
    requires
        is_pick(a, claim, i),
        is_pick(b, claim, k),
        forall|x: Pod| a.contains(x) <==> b.contains(x),
    ensures
        running(a[i]) == running(b[k]),
        key_namespace(a[i]) == key_namespace(b[k]),
        key_name(a[i]) == key_name(b[k]),
{
    assert(a.contains(a[i]) && b.contains(b[k]));
    let x = choose|x: int| 0 <= x < b.len() && b[x] == a[i];
    let y = choose|y: int| 0 <= y < a.len() && a[y] == b[k];
    pod_order_is_total(a[i], b[k]);
    pod_order_is_strict(a[i], b[k], a[i]);
    pod_order_is_strict(b[k], a[i], b[k]);
    assert(consumes(b[x], claim));
    assert(consumes(a[y], claim));
    if pod_before(a[i], b[k]) {
        if x < k {
            assert(pod_before(b[k], b[x]));
        } else {
            assert(!pod_before(b[x], b[k]));
        }
    }
    if pod_before(b[k], a[i]) {
        if y < i {
            assert(pod_before(a[i], a[y]));
        } else {
            assert(!pod_before(a[y], a[i]));
        }
    }
}

/// What the pods of a selector give: the first that runs is read, or the first
/// of them where none runs, and none is read where there is none.
pub proof fn first_running_pod_is_read(
    pods: Seq<Pod>,
    container: Option<Seq<char>>,
    ns: Seq<char>,
    query: Seq<char>,
)
    ensures
        ({
            let r = inherited_from_pods(pods, container, ns, query);
            let runs = |k: int| 0 <= k < pods.len() && running(pods[k]);
            &&& pods.len() == 0 ==> r is Err && r->Err_0 == ErrorView::MissingDependency(
                no_matching_pod_text(query, ns),
            )
            &&& forall|k: int| #[trigger]
                runs(k) && (forall|j: int| 0 <= j < k ==> !(#[trigger] runs(j))) ==> r == extracted(
                    pods[k],
                    container,
                    None,
                    ns,
                )
            &&& pods.len() > 0 && (forall|k: int| !(#[trigger] runs(k))) ==> r == extracted(
                pods[0],
                container,
                None,
                ns,
            )
        }),
{
    let p = |x: Pod| running(x);
    let runs = |k: int| 0 <= k < pods.len() && running(pods[k]);
    let r = inherited_from_pods(pods, container, ns, query);
    assert forall|k: int| #[trigger]
        runs(k) && (forall|j: int| 0 <= j < k ==> !(#[trigger] runs(j))) implies r == extracted(
        pods[k],
        container,
        None,
        ns,
    ) by {
        assert forall|j: int| 0 <= j < k implies !p(#[trigger] pods[j]) by {
            assert(!runs(j));
        }
        first_where_is(pods, p, k);
    }
    if pods.len() > 0 && (forall|k: int| !(#[trigger] runs(k))) {
        assert forall|j: int| 0 <= j < pods.len() implies !p(#[trigger] pods[j]) by {
            assert(!runs(j));
        }
        first_where_is(pods, p, pods.len() as int);
    }
}

/// Where a claim is consumed, some consumer is the one that is read.
proof fn some_consumer_is_picked(pods: Seq<Pod>, claim: Seq<char>, k: int)
    requires
        0 <= k < pods.len(),
        consumes(pods[k], claim),
    ensures
        exists|i: int| #[trigger] is_pick(pods, claim, i),
    decreases pods.len(),
{
    let front = pods.drop_last();
    let last = pods.len() - 1;
    if exists|i: int| 0 <= i < front.len() && consumes(#[trigger] front[i], claim) {
        let c = choose|i: int| 0 <= i < front.len() && consumes(#[trigger] front[i], claim);
        some_consumer_is_picked(front, claim, c);
        let b = choose|i: int| #[trigger] is_pick(front, claim, i);
        if consumes(pods[last], claim) && pod_before(pods[last], pods[b]) {
            assert forall|j: int| 0 <= j < last && consumes(#[trigger] pods[j], claim) implies pod_before(
                pods[last],
                pods[j],
            ) by {
                assert(front[j] == pods[j]);
                if j < b {
                    pod_order_is_strict(pods[last], pods[b], pods[j]);
                } else {
                    pod_order_splits(pods[last], pods[j], pods[b]);
                }
            }
            pod_order_is_strict(pods[last], pods[last], pods[last]);
            assert(is_pick(pods, claim, last));
        } else {
            assert forall|j: int| 0 <= j < b && consumes(#[trigger] pods[j], claim) implies pod_before(
                pods[b],
                pods[j],
            ) by {
                assert(front[j] == pods[j]);
            }
            assert forall|j: int|
                b <= j < pods.len() && consumes(#[trigger] pods[j], claim) implies !pod_before(
                pods[j],
                pods[b],
            ) by {
                if j < last {
                    assert(front[j] == pods[j]);
                }
            }
            assert(is_pick(pods, claim, b));
        }
    } else {
        assert forall|j: int| 0 <= j < last implies !consumes(#[trigger] pods[j], claim) by {
            assert(front[j] == pods[j]);
        }
        assert(k == last);
        pod_order_is_strict(pods[last], pods[last], pods[last]);
        assert(is_pick(pods, claim, last));
    }
}

/// What the consumers of a claim give: one of them is read, one that runs
/// where any does, and none is read where nothing consumes the claim.
pub proof fn consumer_of_the_claim_is_read(
    pods: Seq<Pod>,
    claim: Seq<char>,
    ns: Seq<char>,
    container: Option<Seq<char>>,
)
    ensures
        ({
            let r = inherited_from_consumer(pods, claim, ns, container);
            let none = forall|k: int| 0 <= k < pods.len() ==> !consumes(#[trigger] pods[k], claim);
            &&& none ==> r is Err && r->Err_0 == ErrorView::MissingDependency(
                no_consumer_text(claim, ns),
            )
            &&& !none ==> exists|i: int|
                0 <= i < pods.len() && consumes(#[trigger] pods[i], claim) && r == extracted(
                    pods[i],
                    container,
                    Some(claim),
                    ns,
                ) && ((exists|k: int|
                    0 <= k < pods.len() && consumes(#[trigger] pods[k], claim) && running(pods[k]))
                    ==> running(pods[i]))
        }),
{
    if exists|k: int| 0 <= k < pods.len() && consumes(#[trigger] pods[k], claim) {
        let k = choose|k: int| 0 <= k < pods.len() && consumes(#[trigger] pods[k], claim);
        some_consumer_is_picked(pods, claim, k);
        let i = choose|i: int| #[trigger] is_pick(pods, claim, i);
        assert(consumes(pods[i], claim));
        if exists|x: int| 0 <= x < pods.len() && consumes(#[trigger] pods[x], claim) && running(
            pods[x],
        ) {
            let x = choose|x: int|
                0 <= x < pods.len() && consumes(#[trigger] pods[x], claim) && running(pods[x]);
            running_consumer_is_preferred(pods, claim, i, x);
        }
    } else {
        assert(forall|i: int| !(#[trigger] is_pick(pods, claim, i)));
    }
}

/// A pod consumes a claim where one of its volumes is that claim, and the
/// controller's own pods never count; a container mounts it where it mounts
/// such a volume by name.
pub proof fn consumer_mounts_the_claim(pod: Pod, claim: Seq<char>)
    ensures
        consumes(pod, claim) <==> {
            &&& exists|k: int|
                0 <= k < pod.volumes@.len() && (#[trigger] pod.volumes@[k]).claim is Some
                    && pod.volumes@[k].claim->0@ == claim
            &&& !(pod.managed_by is Some && pod.managed_by->0@ == MANAGED_BY_VALUE@)
        },
        forall|i: int| #[trigger]
            container_mounts(pod, i, claim) ==> 0 <= i < pod.containers@.len() && exists|k: int|
                0 <= k < pod.volumes@.len() && (#[trigger] pod.volumes@[k]).claim is Some
                    && pod.volumes@[k].claim->0@ == claim && texts(
                    pod.containers@[i].volume_mounts@,
                ).contains(pod.volumes@[k].name@),
{
    if exists|k: int|
        0 <= k < pod.volumes@.len() && (#[trigger] pod.volumes@[k]).claim is Some
            && pod.volumes@[k].claim->0@ == claim {
        let k = choose|k: int|
            0 <= k < pod.volumes@.len() && (#[trigger] pod.volumes@[k]).claim is Some
                && pod.volumes@[k].claim->0@ == claim;
        assert(backs(pod, k, claim));
    }
    if mounts_claim(pod, claim) {
        let k = choose|k: int| #[trigger] backs(pod, k, claim);
        assert(pod.volumes@[k].claim is Some);
    }
    assert forall|i: int| #[trigger] container_mounts(pod, i, claim) implies 0 <= i
        < pod.containers@.len() && exists|k: int|
        0 <= k < pod.volumes@.len() && (#[trigger] pod.volumes@[k]).claim is Some
            && pod.volumes@[k].claim->0@ == claim && texts(
            pod.containers@[i].volume_mounts@,
        ).contains(pod.volumes@[k].name@) by {
        let k = choose|k: int| #[trigger]
            backs(pod, k, claim) && texts(pod.containers@[i].volume_mounts@).contains(
                pod.volumes@[k].name@,
            );
        assert(pod.volumes@[k].claim is Some);
    }
}

/// The container that is read: the first of the name that was asked for, and
/// none where there is no such name; without a name, the only one that mounts
/// the claim, else the first.
pub proof fn asked_container_is_read(
    pod: Pod,
    container: Option<Seq<char>>,
    claim: Option<Seq<char>>,
)
    ensures
        ({
            let chosen = chosen_container(pod, container, claim);
            let all = pod.containers@;
            &&& chosen is Some ==> 0 <= chosen->0 < all.len()
            &&& container is Some ==> {
                &&& chosen is None <==> forall|k: int|
                    0 <= k < all.len() ==> (#[trigger] all[k]).name@ != container->0
                &&& chosen is Some ==> all[chosen->0].name@ == container->0 && forall|k: int|
                    0 <= k < chosen->0 ==> (#[trigger] all[k]).name@ != container->0
            }
            &&& container is None ==> {
                let sole = claim is Some && exists|i: int| #[trigger]
                    sole_mounter(pod, claim->0, i);
                &&& sole ==> chosen is Some && sole_mounter(pod, claim->0, chosen->0)
                &&& !sole ==> (chosen is None <==> all.len() == 0)
                &&& !sole && chosen is Some ==> chosen->0 == 0
            }
        }),
{
    let all = pod.containers@;
    if container is Some {
        let p = has_name(container->0);
        named_container_is_first(all, container->0);
        assert forall|k: int| 0 <= k < all.len() implies p(#[trigger] all[k]) == (all[k].name@
            == container->0) by {}
        let at = first_where(all, p);
        if at == all.len() {
            assert forall|k: int| 0 <= k < all.len() implies (#[trigger] all[k]).name@
                != container->0 by {
                assert(!p(all[k]));
            }
        } else {
            assert forall|k: int| 0 <= k < at implies (#[trigger] all[k]).name@
                != container->0 by {
                assert(!p(all[k]));
            }
        }
    } else if claim is Some && exists|i: int| #[trigger] sole_mounter(pod, claim->0, i) {
        let i = choose|i: int| #[trigger] sole_mounter(pod, claim->0, i);
        assert(container_mounts(pod, i, claim->0));
    }
}

proof fn named_container_is_first(all: Seq<Container>, name: Seq<char>)
    ensures
        ({
            let p = has_name(name);
            let at = first_where(all, p);
            &&& 0 <= at <= all.len()
            &&& at < all.len() ==> p(all[at])
            &&& forall|j: int| 0 <= j < at ==> !p(#[trigger] all[j])
        }),
    decreases all.len(),
{
    let p = has_name(name);
    if all.len() > 0 && !p(all[0]) {
        let rest = all.skip(1);
        named_container_is_first(rest, name);
        assert forall|j: int| 0 <= j < first_where(all, p) implies !p(#[trigger] all[j]) by {
            if j > 0 {
                assert(all[j] == rest[j - 1]);
            }
        }
    }
}

/// What is read of a pod: the context of the container that was chosen and the
/// pod's own, as they stand, under the names of both. It fails where a named
/// container is not there and where neither context says anything.
pub proof fn pod_is_read_as_it_stands(
    pod: Pod,
    container: Option<Seq<char>>,
    claim: Option<Seq<char>>,
    ns: Seq<char>,
)
    ensures
        ({
            let r = extracted(pod, container, claim, ns);
            let chosen = chosen_container(pod, container, claim);
            let sc = if chosen is Some && pod.containers@[chosen->0].security_context is Some {
                Some(pod.containers@[chosen->0].security_context->0@)
            } else {
                None
            };
            let psc = if pod.security_context is Some {
                Some(pod.security_context->0@)
            } else {
                None
            };
            let unnamed = container is Some && chosen is None;
            &&& r is Ok <==> !unnamed && (sc is Some || psc is Some)
            &&& r is Ok ==> {
                &&& r->Ok_0.contexts.0 == sc
                &&& r->Ok_0.contexts.1 == psc
                &&& pod.name is Some ==> r->Ok_0.pod == pod.name->0@
                &&& pod.name is None && pod.generate_name is Some ==> r->Ok_0.pod
                    == pod.generate_name->0@
                &&& chosen is Some ==> r->Ok_0.container == Some(pod.containers@[chosen->0].name@)
                &&& chosen is None ==> r->Ok_0.container is None
            }
            &&& unnamed ==> r->Err_0 == ErrorView::MissingDependency(
                no_such_container_text(pod_title(pod), ns, container->0),
            )
            &&& r is Err && !unnamed ==> r->Err_0 == ErrorView::MissingDependency(
                nothing_to_inherit_text(pod_title(pod), ns),
            )
        }),
{
}

/// A pod that runs goes before one that does not; among those that run alike
/// the namespace decides, and then the name.
pub proof fn running_pod_goes_first(a: Pod, b: Pod)
    ensures
        ({
            let ra = a.status is Some && a.status->0.phase is Some && a.status->0.phase->0@
                == "Running"@;
            let rb = b.status is Some && b.status->0.phase is Some && b.status->0.phase->0@
                == "Running"@;
            let na = if a.namespace is Some {
                a.namespace->0@
            } else {
                ""@
            };
            let nb = if b.namespace is Some {
                b.namespace->0@
            } else {
                ""@
            };
            let ta = if a.name is Some {
                a.name->0@
            } else {
                ""@
            };
            let tb = if b.name is Some {
                b.name->0@
            } else {
                ""@
            };
            &&& ra && !rb ==> pod_before(a, b) && !pod_before(b, a)
            &&& ra == rb && text_before(na, nb) ==> pod_before(a, b)
            &&& ra == rb && na == nb && text_before(ta, tb) ==> pod_before(a, b)
            &&& running(a) == ra
        }),
{
}

/// A container mounts a claim wherever it mounts, by name, a volume that is the
/// claim; and it is the only one where it does and no other does.
pub proof fn sole_mounter_is_the_only_one(pod: Pod, claim: Seq<char>, i: int, k: int, j: int)
    requires
        0 <= i < pod.containers@.len(),
        0 <= k < pod.volumes@.len(),
        pod.volumes@[k].claim is Some,
        pod.volumes@[k].claim->0@ == claim,
        texts(pod.containers@[i].volume_mounts@).contains(pod.volumes@[k].name@),
    ensures
        container_mounts(pod, i, claim),
        j != i && container_mounts(pod, j, claim) ==> !sole_mounter(pod, claim, i),
        (forall|x: int| #[trigger] container_mounts(pod, x, claim) ==> x == i) ==> sole_mounter(
            pod,
            claim,
            i,
        ),
        sole_mounter(pod, claim, j) ==> j == i,
{
    assert(backs(pod, k, claim));
}

} // verus!
