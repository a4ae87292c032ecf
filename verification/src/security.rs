//! Security contexts of containers and pods, the identity that they pin, and
//! how one layer of them is laid over another.
use crate::seed::{copy_opt, over};
use crate::text::opt_text;
use vstd::prelude::*;

verus! {

/// The user and group that movers run as where nothing says otherwise.
pub const MOVER_NONROOT_ID: i64 = 65532;

fn pick_bool(higher: Option<bool>, lower: Option<bool>) -> (value: Option<bool>)
    ensures
        value == over(higher, lower),
{
    if higher.is_some() {
        higher
    } else {
        lower
    }
}

fn pick_int(higher: Option<i64>, lower: Option<i64>) -> (value: Option<i64>)
    ensures
        value == over(higher, lower),
{
    if higher.is_some() {
        higher
    } else {
        lower
    }
}

fn pick_text(higher: &Option<String>, lower: &Option<String>) -> (value: Option<String>)
    ensures
        opt_text(value) == over(opt_text(*higher), opt_text(*lower)),
{
    if higher.is_some() {
        copy_opt(higher)
    } else {
        copy_opt(lower)
    }
}

/// The groups of an optional list.
pub open spec fn group_list(groups: Option<Vec<i64>>) -> Option<Seq<i64>> {
    match groups {
        Some(g) => Some(g@),
        None => None,
    }
}

fn copy_groups(groups: &Option<Vec<i64>>) -> (copy: Option<Vec<i64>>)
    ensures
        group_list(copy) == group_list(*groups),
{
    match groups {
        Some(g) => {
            let copy = g.clone();
            assert(copy@ =~= g@);
            Some(copy)
        },
        None => None,
    }
}

fn pick_groups(higher: &Option<Vec<i64>>, lower: &Option<Vec<i64>>) -> (value: Option<Vec<i64>>)
    ensures
        group_list(value) == over(group_list(*higher), group_list(*lower)),
{
    if higher.is_some() {
        copy_groups(higher)
    } else {
        copy_groups(lower)
    }
}

/// What a container says of how it runs. Nested objects are carried as the JSON
/// text that they came in.
#[derive(Debug, PartialEq, Eq)]
pub struct SecurityContext {
    pub allow_privilege_escalation: Option<bool>,
    pub app_armor_profile: Option<String>,
    pub capabilities: Option<String>,
    pub privileged: Option<bool>,
    pub proc_mount: Option<String>,
    pub read_only_root_filesystem: Option<bool>,
    pub run_as_group: Option<i64>,
    pub run_as_non_root: Option<bool>,
    pub run_as_user: Option<i64>,
    pub se_linux_options: Option<String>,
    pub seccomp_profile: Option<String>,
    pub windows_options: Option<String>,
}

/// What a container says of how it runs.
#[verifier::ext_equal]
pub struct ContainerContextView {
    pub allow_privilege_escalation: Option<bool>,
    pub app_armor_profile: Option<Seq<char>>,
    pub capabilities: Option<Seq<char>>,
    pub privileged: Option<bool>,
    pub proc_mount: Option<Seq<char>>,
    pub read_only_root_filesystem: Option<bool>,
    pub run_as_group: Option<i64>,
    pub run_as_non_root: Option<bool>,
    pub run_as_user: Option<i64>,
    pub se_linux_options: Option<Seq<char>>,
    pub seccomp_profile: Option<Seq<char>>,
    pub windows_options: Option<Seq<char>>,
}

impl View for SecurityContext {
    type V = ContainerContextView;

    open spec fn view(&self) -> ContainerContextView {
        ContainerContextView {
            allow_privilege_escalation: self.allow_privilege_escalation,
            app_armor_profile: opt_text(self.app_armor_profile),
            capabilities: opt_text(self.capabilities),
            privileged: self.privileged,
            proc_mount: opt_text(self.proc_mount),
            read_only_root_filesystem: self.read_only_root_filesystem,
            run_as_group: self.run_as_group,
            run_as_non_root: self.run_as_non_root,
            run_as_user: self.run_as_user,
            se_linux_options: opt_text(self.se_linux_options),
            seccomp_profile: opt_text(self.seccomp_profile),
            windows_options: opt_text(self.windows_options),
        }
    }
}

impl SecurityContext {
    /// A context that says nothing.
    pub open spec fn blank() -> ContainerContextView {
        ContainerContextView {
            allow_privilege_escalation: None,
            app_armor_profile: None,
            capabilities: None,
            privileged: None,
            proc_mount: None,
            read_only_root_filesystem: None,
            run_as_group: None,
            run_as_non_root: None,
            run_as_user: None,
            se_linux_options: None,
            seccomp_profile: None,
            windows_options: None,
        }
    }

    /// A context that says nothing.
    pub fn new() -> (context: Self)
        ensures
            context@ == Self::blank(),
    {
        SecurityContext {
            allow_privilege_escalation: None,
            app_armor_profile: None,
            capabilities: None,
            privileged: None,
            proc_mount: None,
            read_only_root_filesystem: None,
            run_as_group: None,
            run_as_non_root: None,
            run_as_user: None,
            se_linux_options: None,
            seccomp_profile: None,
            windows_options: None,
        }
    }
}

/// One context over another: what the higher says stands, and the lower
/// fills the rest.
pub open spec fn container_over(higher: ContainerContextView, lower: ContainerContextView) -> ContainerContextView {
    ContainerContextView {
        allow_privilege_escalation: over(higher.allow_privilege_escalation, lower.allow_privilege_escalation),
        app_armor_profile: over(higher.app_armor_profile, lower.app_armor_profile),
        capabilities: over(higher.capabilities, lower.capabilities),
        privileged: over(higher.privileged, lower.privileged),
        proc_mount: over(higher.proc_mount, lower.proc_mount),
        read_only_root_filesystem: over(higher.read_only_root_filesystem, lower.read_only_root_filesystem),
        run_as_group: over(higher.run_as_group, lower.run_as_group),
        run_as_non_root: over(higher.run_as_non_root, lower.run_as_non_root),
        run_as_user: over(higher.run_as_user, lower.run_as_user),
        se_linux_options: over(higher.se_linux_options, lower.se_linux_options),
        seccomp_profile: over(higher.seccomp_profile, lower.seccomp_profile),
        windows_options: over(higher.windows_options, lower.windows_options),
    }
}

fn overlay_container(higher: &SecurityContext, lower: &SecurityContext) -> (merged: SecurityContext)
    ensures
        merged@ == container_over(higher@, lower@),
{
    SecurityContext {
        allow_privilege_escalation: pick_bool(higher.allow_privilege_escalation, lower.allow_privilege_escalation),
        app_armor_profile: pick_text(&higher.app_armor_profile, &lower.app_armor_profile),
        capabilities: pick_text(&higher.capabilities, &lower.capabilities),
        privileged: pick_bool(higher.privileged, lower.privileged),
        proc_mount: pick_text(&higher.proc_mount, &lower.proc_mount),
        read_only_root_filesystem: pick_bool(higher.read_only_root_filesystem, lower.read_only_root_filesystem),
        run_as_group: pick_int(higher.run_as_group, lower.run_as_group),
        run_as_non_root: pick_bool(higher.run_as_non_root, lower.run_as_non_root),
        run_as_user: pick_int(higher.run_as_user, lower.run_as_user),
        se_linux_options: pick_text(&higher.se_linux_options, &lower.se_linux_options),
        seccomp_profile: pick_text(&higher.seccomp_profile, &lower.seccomp_profile),
        windows_options: pick_text(&higher.windows_options, &lower.windows_options),
    }
}

impl Clone for SecurityContext {
    fn clone(&self) -> (copy: Self)
        ensures
            copy@ == self@,
    {
        SecurityContext {
            allow_privilege_escalation: self.allow_privilege_escalation,
            app_armor_profile: copy_opt(&self.app_armor_profile),
            capabilities: copy_opt(&self.capabilities),
            privileged: self.privileged,
            proc_mount: copy_opt(&self.proc_mount),
            read_only_root_filesystem: self.read_only_root_filesystem,
            run_as_group: self.run_as_group,
            run_as_non_root: self.run_as_non_root,
            run_as_user: self.run_as_user,
            se_linux_options: copy_opt(&self.se_linux_options),
            seccomp_profile: copy_opt(&self.seccomp_profile),
            windows_options: copy_opt(&self.windows_options),
        }
    }
}

/// What a pod says of how its containers run. Nested objects are carried as the
/// JSON text that they came in.
#[derive(Debug, PartialEq, Eq)]
pub struct PodSecurityContext {
    pub app_armor_profile: Option<String>,
    pub fs_group: Option<i64>,
    pub fs_group_change_policy: Option<String>,
    pub run_as_group: Option<i64>,
    pub run_as_non_root: Option<bool>,
    pub run_as_user: Option<i64>,
    pub se_linux_change_policy: Option<String>,
    pub se_linux_options: Option<String>,
    pub seccomp_profile: Option<String>,
    pub supplemental_groups: Option<Vec<i64>>,
    pub supplemental_groups_policy: Option<String>,
    pub sysctls: Option<String>,
    pub windows_options: Option<String>,
}

/// What a pod says of how its containers run.
#[verifier::ext_equal]
pub struct PodContextView {
    pub app_armor_profile: Option<Seq<char>>,
    pub fs_group: Option<i64>,
    pub fs_group_change_policy: Option<Seq<char>>,
    pub run_as_group: Option<i64>,
    pub run_as_non_root: Option<bool>,
    pub run_as_user: Option<i64>,
    pub se_linux_change_policy: Option<Seq<char>>,
    pub se_linux_options: Option<Seq<char>>,
    pub seccomp_profile: Option<Seq<char>>,
    pub supplemental_groups: Option<Seq<i64>>,
    pub supplemental_groups_policy: Option<Seq<char>>,
    pub sysctls: Option<Seq<char>>,
    pub windows_options: Option<Seq<char>>,
}

impl View for PodSecurityContext {
    type V = PodContextView;

    open spec fn view(&self) -> PodContextView {
        PodContextView {
            app_armor_profile: opt_text(self.app_armor_profile),
            fs_group: self.fs_group,
            fs_group_change_policy: opt_text(self.fs_group_change_policy),
            run_as_group: self.run_as_group,
            run_as_non_root: self.run_as_non_root,
            run_as_user: self.run_as_user,
            se_linux_change_policy: opt_text(self.se_linux_change_policy),
            se_linux_options: opt_text(self.se_linux_options),
            seccomp_profile: opt_text(self.seccomp_profile),
            supplemental_groups: (match self.supplemental_groups {
                Some(g) => Some(g@),
                None => None,
            }),
            supplemental_groups_policy: opt_text(self.supplemental_groups_policy),
            sysctls: opt_text(self.sysctls),
            windows_options: opt_text(self.windows_options),
        }
    }
}

impl PodSecurityContext {
    /// A context that says nothing.
    pub open spec fn blank() -> PodContextView {
        PodContextView {
            app_armor_profile: None,
            fs_group: None,
            fs_group_change_policy: None,
            run_as_group: None,
            run_as_non_root: None,
            run_as_user: None,
            se_linux_change_policy: None,
            se_linux_options: None,
            seccomp_profile: None,
            supplemental_groups: None,
            supplemental_groups_policy: None,
            sysctls: None,
            windows_options: None,
        }
    }

    /// A context that says nothing.
    pub fn new() -> (context: Self)
        ensures
            context@ == Self::blank(),
    {
        PodSecurityContext {
            app_armor_profile: None,
            fs_group: None,
            fs_group_change_policy: None,
            run_as_group: None,
            run_as_non_root: None,
            run_as_user: None,
            se_linux_change_policy: None,
            se_linux_options: None,
            seccomp_profile: None,
            supplemental_groups: None,
            supplemental_groups_policy: None,
            sysctls: None,
            windows_options: None,
        }
    }
}

/// One context over another: what the higher says stands, and the lower
/// fills the rest.
pub open spec fn pod_over(higher: PodContextView, lower: PodContextView) -> PodContextView {
    PodContextView {
        app_armor_profile: over(higher.app_armor_profile, lower.app_armor_profile),
        fs_group: over(higher.fs_group, lower.fs_group),
        fs_group_change_policy: over(higher.fs_group_change_policy, lower.fs_group_change_policy),
        run_as_group: over(higher.run_as_group, lower.run_as_group),
        run_as_non_root: over(higher.run_as_non_root, lower.run_as_non_root),
        run_as_user: over(higher.run_as_user, lower.run_as_user),
        se_linux_change_policy: over(higher.se_linux_change_policy, lower.se_linux_change_policy),
        se_linux_options: over(higher.se_linux_options, lower.se_linux_options),
        seccomp_profile: over(higher.seccomp_profile, lower.seccomp_profile),
        supplemental_groups: over(higher.supplemental_groups, lower.supplemental_groups),
        supplemental_groups_policy: over(higher.supplemental_groups_policy, lower.supplemental_groups_policy),
        sysctls: over(higher.sysctls, lower.sysctls),
        windows_options: over(higher.windows_options, lower.windows_options),
    }
}

fn overlay_pod(higher: &PodSecurityContext, lower: &PodSecurityContext) -> (merged: PodSecurityContext)
    ensures
        merged@ == pod_over(higher@, lower@),
{
    PodSecurityContext {
        app_armor_profile: pick_text(&higher.app_armor_profile, &lower.app_armor_profile),
        fs_group: pick_int(higher.fs_group, lower.fs_group),
        fs_group_change_policy: pick_text(&higher.fs_group_change_policy, &lower.fs_group_change_policy),
        run_as_group: pick_int(higher.run_as_group, lower.run_as_group),
        run_as_non_root: pick_bool(higher.run_as_non_root, lower.run_as_non_root),
        run_as_user: pick_int(higher.run_as_user, lower.run_as_user),
        se_linux_change_policy: pick_text(&higher.se_linux_change_policy, &lower.se_linux_change_policy),
        se_linux_options: pick_text(&higher.se_linux_options, &lower.se_linux_options),
        seccomp_profile: pick_text(&higher.seccomp_profile, &lower.seccomp_profile),
        supplemental_groups: pick_groups(&higher.supplemental_groups, &lower.supplemental_groups),
        supplemental_groups_policy: pick_text(&higher.supplemental_groups_policy, &lower.supplemental_groups_policy),
        sysctls: pick_text(&higher.sysctls, &lower.sysctls),
        windows_options: pick_text(&higher.windows_options, &lower.windows_options),
    }
}

impl Clone for PodSecurityContext {
    fn clone(&self) -> (copy: Self)
        ensures
            copy@ == self@,
    {
        PodSecurityContext {
            app_armor_profile: copy_opt(&self.app_armor_profile),
            fs_group: self.fs_group,
            fs_group_change_policy: copy_opt(&self.fs_group_change_policy),
            run_as_group: self.run_as_group,
            run_as_non_root: self.run_as_non_root,
            run_as_user: self.run_as_user,
            se_linux_change_policy: copy_opt(&self.se_linux_change_policy),
            se_linux_options: copy_opt(&self.se_linux_options),
            seccomp_profile: copy_opt(&self.seccomp_profile),
            supplemental_groups: copy_groups(&self.supplemental_groups),
            supplemental_groups_policy: copy_opt(&self.supplemental_groups_policy),
            sysctls: copy_opt(&self.sysctls),
            windows_options: copy_opt(&self.windows_options),
        }
    }
}

/// What an optional container context says.
pub open spec fn container_view(sc: Option<SecurityContext>) -> Option<ContainerContextView> {
    match sc {
        Some(c) => Some(c@),
        None => None,
    }
}

/// What an optional pod context says.
pub open spec fn pod_view(psc: Option<PodSecurityContext>) -> Option<PodContextView> {
    match psc {
        Some(c) => Some(c@),
        None => None,
    }
}

/// A container context and a pod context.
pub type InheritedContexts = (Option<SecurityContext>, Option<PodSecurityContext>);

/// What a pair of contexts says.
pub open spec fn pair_view(pair: InheritedContexts) -> (
    Option<ContainerContextView>,
    Option<PodContextView>,
) {
    (container_view(pair.0), pod_view(pair.1))
}

/// Copies an optional container context.
pub fn copy_container(sc: &Option<SecurityContext>) -> (copy: Option<SecurityContext>)
    ensures
        container_view(copy) == container_view(*sc),
{
    match sc {
        Some(c) => Some(c.clone()),
        None => None,
    }
}

/// Copies an optional pod context.
pub fn copy_pod(psc: &Option<PodSecurityContext>) -> (copy: Option<PodSecurityContext>)
    ensures
        pod_view(copy) == pod_view(*psc),
{
    match psc {
        Some(c) => Some(c.clone()),
        None => None,
    }
}

/// The user that a pair of contexts pins: the container's, or else the pod's.
pub open spec fn effective_user(
    sc: Option<ContainerContextView>,
    psc: Option<PodContextView>,
) -> Option<i64> {
    if sc is Some && sc->0.run_as_user is Some {
        sc->0.run_as_user
    } else if psc is Some {
        psc->0.run_as_user
    } else {
        None
    }
}

/// The group that a pair of contexts pins: the container's, or else the pod's.
pub open spec fn effective_group(
    sc: Option<ContainerContextView>,
    psc: Option<PodContextView>,
) -> Option<i64> {
    if sc is Some && sc->0.run_as_group is Some {
        sc->0.run_as_group
    } else if psc is Some {
        psc->0.run_as_group
    } else {
        None
    }
}

/// The user that a pair of contexts pins: the container's, or else the pod's.
pub fn effective_run_as_user(
    sc: &Option<SecurityContext>,
    psc: &Option<PodSecurityContext>,
) -> (uid: Option<i64>)
    ensures
        uid == effective_user(container_view(*sc), pod_view(*psc)),
{
    if let Some(c) = sc {
        if c.run_as_user.is_some() {
            return c.run_as_user;
        }
    }
    match psc {
        Some(p) => p.run_as_user,
        None => None,
    }
}

/// The group that a pair of contexts pins: the container's, or else the pod's.
pub fn effective_run_as_group(
    sc: &Option<SecurityContext>,
    psc: &Option<PodSecurityContext>,
) -> (gid: Option<i64>)
    ensures
        gid == effective_group(container_view(*sc), pod_view(*psc)),
{
    if let Some(c) = sc {
        if c.run_as_group.is_some() {
            return c.run_as_group;
        }
    }
    match psc {
        Some(p) => p.run_as_group,
        None => None,
    }
}

/// The groups that a process under a pair of contexts belongs to by them.
pub open spec fn groups_held(
    sc: Option<ContainerContextView>,
    psc: Option<PodContextView>,
) -> Set<i64> {
    Set::new(
        |g: i64|
            {
                ||| effective_group(sc, psc) == Some(g)
                ||| psc is Some && psc->0.fs_group == Some(g)
                ||| psc is Some && psc->0.supplemental_groups is Some
                    && psc->0.supplemental_groups->0.contains(g)
            },
    )
}

/// Whether a pair of contexts pins anything that movers do not have anyway: a
/// user, or a group beyond the default one.
pub open spec fn identity_pinned(
    sc: Option<ContainerContextView>,
    psc: Option<PodContextView>,
) -> bool {
    effective_user(sc, psc) is Some || !groups_held(sc, psc).subset_of(set![MOVER_NONROOT_ID])
}

fn beyond_default(gid: Option<i64>) -> (yes: bool)
    ensures
        yes == (gid is Some && gid->0 != MOVER_NONROOT_ID),
{
    match gid {
        Some(g) => g != MOVER_NONROOT_ID,
        None => false,
    }
}

/// Whether a pair of contexts pins anything that movers do not have anyway.
pub fn contexts_pin_identity(
    sc: &Option<SecurityContext>,
    psc: &Option<PodSecurityContext>,
) -> (pinned: bool)
    ensures
        pinned == identity_pinned(container_view(*sc), pod_view(*psc)),
{
    let ghost held = groups_held(container_view(*sc), pod_view(*psc));
    let ghost base = set![MOVER_NONROOT_ID];
    if effective_run_as_user(sc, psc).is_some() {
        return true;
    }
    let gid = effective_run_as_group(sc, psc);
    if beyond_default(gid) {
        assert(held.contains(gid->0) && !base.contains(gid->0));
        return true;
    }
    if let Some(p) = psc {
        if beyond_default(p.fs_group) {
            assert(held.contains(p.fs_group->0) && !base.contains(p.fs_group->0));
            return true;
        }
        if let Some(groups) = &p.supplemental_groups {
            let mut i: usize = 0;
            while i < groups.len()
                invariant
                    i <= groups.len(),
                    held == groups_held(container_view(*sc), pod_view(*psc)),
                    base == set![MOVER_NONROOT_ID],
                    *psc == Some(*p),
                    p.supplemental_groups == Some(*groups),
                    forall|j: int| 0 <= j < i ==> #[trigger] groups@[j] == MOVER_NONROOT_ID,
                decreases groups.len() - i,
            {
                if groups[i] != MOVER_NONROOT_ID {
                    assert(groups@.contains(groups@[i as int]));
                    assert(held.contains(groups@[i as int]) && !base.contains(groups@[i as int]));
                    return true;
                }
                i = i + 1;
            }
        }
    }
    assert(held.subset_of(base));
    false
}

/// One pair of contexts over another. Each field that the higher sets stands,
/// and the lower fills the rest; the user and the group that the higher pins,
/// at whichever level, or else the lower, are set on the container, where
/// nothing of the other pair can stand in front of them.
pub open spec fn merged_pair(
    lower: (Option<ContainerContextView>, Option<PodContextView>),
    higher: (Option<ContainerContextView>, Option<PodContextView>),
) -> (Option<ContainerContextView>, Option<PodContextView>) {
    let user = over(effective_user(higher.0, higher.1), effective_user(lower.0, lower.1));
    let group = over(effective_group(higher.0, higher.1), effective_group(lower.0, lower.1));
    let laid = match (higher.0, lower.0) {
        (Some(h), Some(l)) => Some(container_over(h, l)),
        (Some(h), None) => Some(h),
        (None, l) => l,
    };
    let container = if laid is None && user is None && group is None {
        None
    } else {
        let base = if laid is Some {
            laid->0
        } else {
            SecurityContext::blank()
        };
        Some(ContainerContextView { run_as_user: user, run_as_group: group, ..base })
    };
    let pod = match (higher.1, lower.1) {
        (Some(h), Some(l)) => Some(pod_over(h, l)),
        (Some(h), None) => Some(h),
        (None, l) => l,
    };
    (container, pod)
}

/// Lays one pair of contexts over another.
pub fn merge_context_pair(
    lower_sc: &Option<SecurityContext>,
    lower_psc: &Option<PodSecurityContext>,
    higher_sc: &Option<SecurityContext>,
    higher_psc: &Option<PodSecurityContext>,
) -> (merged: InheritedContexts)
    ensures
        pair_view(merged) == merged_pair(
            (container_view(*lower_sc), pod_view(*lower_psc)),
            (container_view(*higher_sc), pod_view(*higher_psc)),
        ),
{
    let user = pick_int(
        effective_run_as_user(higher_sc, higher_psc),
        effective_run_as_user(lower_sc, lower_psc),
    );
    let group = pick_int(
        effective_run_as_group(higher_sc, higher_psc),
        effective_run_as_group(lower_sc, lower_psc),
    );
    let laid = match (higher_sc, lower_sc) {
        (Some(h), Some(l)) => Some(overlay_container(h, l)),
        (Some(h), None) => Some(h.clone()),
        (None, l) => copy_container(l),
    };
    let container = if laid.is_none() && user.is_none() && group.is_none() {
        None
    } else {
        let mut base = match laid {
            Some(c) => c,
            None => SecurityContext::new(),
        };
        base.run_as_user = user;
        base.run_as_group = group;
        Some(base)
    };
    let pod = match (higher_psc, lower_psc) {
        (Some(h), Some(l)) => Some(overlay_pod(h, l)),
        (Some(h), None) => Some(h.clone()),
        (None, l) => copy_pod(l),
    };
    (container, pod)
}

/// The identity of a merge is that of the highest layer that pins one, at
/// whichever level it does.
pub proof fn merge_keeps_the_highest_identity(
    lower: (Option<ContainerContextView>, Option<PodContextView>),
    higher: (Option<ContainerContextView>, Option<PodContextView>),
)
    ensures
        effective_user(merged_pair(lower, higher).0, merged_pair(lower, higher).1) == over(
            effective_user(higher.0, higher.1),
            effective_user(lower.0, lower.1),
        ),
        effective_group(merged_pair(lower, higher).0, merged_pair(lower, higher).1) == over(
            effective_group(higher.0, higher.1),
            effective_group(lower.0, lower.1),
        ),
{
}

/// Laying pairs over one another is associative: three layers come to the same
/// in either order of folding.
pub proof fn merge_is_associative(
    a: (Option<ContainerContextView>, Option<PodContextView>),
    b: (Option<ContainerContextView>, Option<PodContextView>),
    c: (Option<ContainerContextView>, Option<PodContextView>),
)
    ensures
        merged_pair(merged_pair(a, b), c) == merged_pair(a, merged_pair(b, c)),
{
    merge_keeps_the_highest_identity(a, b);
    merge_keeps_the_highest_identity(b, c);
    let left = merged_pair(merged_pair(a, b), c);
    let right = merged_pair(a, merged_pair(b, c));
    assert(left.0 is Some <==> right.0 is Some);
    if left.0 is Some {
        assert(left.0->0 =~= right.0->0);
    }
    if left.1 is Some {
        assert(left.1->0 =~= right.1->0);
    }
}

/// Laying a pair over nothing pins what the pair pins, and invents no
/// identity.
pub proof fn merge_over_nothing(
    higher: (Option<ContainerContextView>, Option<PodContextView>),
)
    ensures
        merged_pair((None, None), higher).1 == higher.1,
        effective_user(
            merged_pair((None, None), higher).0,
            merged_pair((None, None), higher).1,
        ) == effective_user(higher.0, higher.1),
        merged_pair((None, None), higher).0 is None <==> higher.0 is None && effective_user(
            higher.0,
            higher.1,
        ) is None && effective_group(higher.0, higher.1) is None,
{
}

/// Whether a value is what two layers come to: the higher's where it sets one,
/// and the lower's where it leaves it open.
pub open spec fn fills<T>(higher: Option<T>, lower: Option<T>, merged: Option<T>) -> bool {
    &&& higher is Some ==> merged == higher
    &&& higher is None ==> merged == lower
}

/// What the higher layer sets in a pod context always stands, field by field,
/// and the lower layer fills what it leaves open.
pub proof fn written_pod_field_wins(higher: PodContextView, lower: PodContextView)
    ensures
        ({
            let merged = pod_over(higher, lower);
            &&& fills(higher.app_armor_profile, lower.app_armor_profile, merged.app_armor_profile)
            &&& fills(higher.fs_group, lower.fs_group, merged.fs_group)
            &&& fills(higher.fs_group_change_policy, lower.fs_group_change_policy, merged.fs_group_change_policy)
            &&& fills(higher.run_as_group, lower.run_as_group, merged.run_as_group)
            &&& fills(higher.run_as_non_root, lower.run_as_non_root, merged.run_as_non_root)
            &&& fills(higher.run_as_user, lower.run_as_user, merged.run_as_user)
            &&& fills(higher.se_linux_change_policy, lower.se_linux_change_policy, merged.se_linux_change_policy)
            &&& fills(higher.se_linux_options, lower.se_linux_options, merged.se_linux_options)
            &&& fills(higher.seccomp_profile, lower.seccomp_profile, merged.seccomp_profile)
            &&& fills(higher.supplemental_groups, lower.supplemental_groups, merged.supplemental_groups)
            &&& fills(higher.supplemental_groups_policy, lower.supplemental_groups_policy, merged.supplemental_groups_policy)
            &&& fills(higher.sysctls, lower.sysctls, merged.sysctls)
            &&& fills(higher.windows_options, lower.windows_options, merged.windows_options)
        }),
{
}

/// What the higher layer sets in a container context always stands, field by
/// field, and the lower layer fills what it leaves open.
pub proof fn written_container_field_wins(
    higher: ContainerContextView,
    lower: ContainerContextView,
)
    ensures
        ({
            let merged = container_over(higher, lower);
            &&& fills(higher.allow_privilege_escalation, lower.allow_privilege_escalation, merged.allow_privilege_escalation)
            &&& fills(higher.app_armor_profile, lower.app_armor_profile, merged.app_armor_profile)
            &&& fills(higher.capabilities, lower.capabilities, merged.capabilities)
            &&& fills(higher.privileged, lower.privileged, merged.privileged)
            &&& fills(higher.proc_mount, lower.proc_mount, merged.proc_mount)
            &&& fills(higher.read_only_root_filesystem, lower.read_only_root_filesystem, merged.read_only_root_filesystem)
            &&& fills(higher.run_as_non_root, lower.run_as_non_root, merged.run_as_non_root)
            &&& fills(higher.se_linux_options, lower.se_linux_options, merged.se_linux_options)
            &&& fills(higher.seccomp_profile, lower.seccomp_profile, merged.seccomp_profile)
            &&& fills(higher.windows_options, lower.windows_options, merged.windows_options)
            &&& fills(higher.run_as_user, lower.run_as_user, merged.run_as_user)
            &&& fills(higher.run_as_group, lower.run_as_group, merged.run_as_group)
        }),
{
}

/// In a merge of two pairs every field that the higher pair sets stands, at its
/// own level, and the lower pair fills the rest: no field is lost, invented or
/// turned round. The user and the group are those that the higher pair pins at
/// either level, else those of the lower, and are set on the container.
pub proof fn written_field_wins_in_a_merge(
    lower: (Option<ContainerContextView>, Option<PodContextView>),
    higher: (Option<ContainerContextView>, Option<PodContextView>),
)
    ensures
        ({
            let (container, pod) = merged_pair(lower, higher);
            let hc = if higher.0 is Some {
                higher.0->0
            } else {
                SecurityContext::blank()
            };
            let lc = if lower.0 is Some {
                lower.0->0
            } else {
                SecurityContext::blank()
            };
            let hp = if higher.1 is Some {
                higher.1->0
            } else {
                PodSecurityContext::blank()
            };
            let lp = if lower.1 is Some {
                lower.1->0
            } else {
                PodSecurityContext::blank()
            };
            let user = if pinned_user(higher) is Some {
                pinned_user(higher)
            } else {
                pinned_user(lower)
            };
            let group = if pinned_group(higher) is Some {
                pinned_group(higher)
            } else {
                pinned_group(lower)
            };
            &&& pod is None <==> higher.1 is None && lower.1 is None
            &&& pod is Some ==> {
                &&& fills(hp.app_armor_profile, lp.app_armor_profile, pod->0.app_armor_profile)
                &&& fills(hp.fs_group, lp.fs_group, pod->0.fs_group)
                &&& fills(hp.fs_group_change_policy, lp.fs_group_change_policy, pod->0.fs_group_change_policy)
                &&& fills(hp.run_as_group, lp.run_as_group, pod->0.run_as_group)
                &&& fills(hp.run_as_non_root, lp.run_as_non_root, pod->0.run_as_non_root)
                &&& fills(hp.run_as_user, lp.run_as_user, pod->0.run_as_user)
                &&& fills(hp.se_linux_change_policy, lp.se_linux_change_policy, pod->0.se_linux_change_policy)
                &&& fills(hp.se_linux_options, lp.se_linux_options, pod->0.se_linux_options)
                &&& fills(hp.seccomp_profile, lp.seccomp_profile, pod->0.seccomp_profile)
                &&& fills(hp.supplemental_groups, lp.supplemental_groups, pod->0.supplemental_groups)
                &&& fills(hp.supplemental_groups_policy, lp.supplemental_groups_policy, pod->0.supplemental_groups_policy)
                &&& fills(hp.sysctls, lp.sysctls, pod->0.sysctls)
                &&& fills(hp.windows_options, lp.windows_options, pod->0.windows_options)
            }
            &&& container is None <==> higher.0 is None && lower.0 is None && user is None && group
                is None
            &&& container is Some ==> {
                &&& container->0.run_as_user == user
                &&& container->0.run_as_group == group
                &&& fills(hc.allow_privilege_escalation, lc.allow_privilege_escalation, container->0.allow_privilege_escalation)
                &&& fills(hc.app_armor_profile, lc.app_armor_profile, container->0.app_armor_profile)
                &&& fills(hc.capabilities, lc.capabilities, container->0.capabilities)
                &&& fills(hc.privileged, lc.privileged, container->0.privileged)
                &&& fills(hc.proc_mount, lc.proc_mount, container->0.proc_mount)
                &&& fills(hc.read_only_root_filesystem, lc.read_only_root_filesystem, container->0.read_only_root_filesystem)
                &&& fills(hc.run_as_non_root, lc.run_as_non_root, container->0.run_as_non_root)
                &&& fills(hc.se_linux_options, lc.se_linux_options, container->0.se_linux_options)
                &&& fills(hc.seccomp_profile, lc.seccomp_profile, container->0.seccomp_profile)
                &&& fills(hc.windows_options, lc.windows_options, container->0.windows_options)
            }
        }),
{
}

/// The user that a pair of contexts pins: the container's where it names one,
/// and only else the pod's.
pub open spec fn pinned_user(
    pair: (Option<ContainerContextView>, Option<PodContextView>),
) -> Option<i64> {
    if pair.0 is Some && pair.0->0.run_as_user is Some {
        pair.0->0.run_as_user
    } else if pair.1 is Some {
        pair.1->0.run_as_user
    } else {
        None
    }
}

/// The group that a pair of contexts pins: the container's where it names one,
/// and only else the pod's.
pub open spec fn pinned_group(
    pair: (Option<ContainerContextView>, Option<PodContextView>),
) -> Option<i64> {
    if pair.0 is Some && pair.0->0.run_as_group is Some {
        pair.0->0.run_as_group
    } else if pair.1 is Some {
        pair.1->0.run_as_group
    } else {
        None
    }
}

/// A container's user and group stand in front of its pod's.
pub proof fn container_stands_in_front_of_its_pod(
    sc: Option<ContainerContextView>,
    psc: Option<PodContextView>,
)
    ensures
        effective_user(sc, psc) == pinned_user((sc, psc)),
        effective_group(sc, psc) == pinned_group((sc, psc)),
        sc is Some && sc->0.run_as_user is Some ==> effective_user(sc, psc) == sc->0.run_as_user,
        sc is None && psc is Some ==> effective_user(sc, psc) == psc->0.run_as_user
            && effective_group(sc, psc) == psc->0.run_as_group,
        sc is None && psc is None ==> effective_user(sc, psc) is None && effective_group(sc, psc)
            is None,
{
}

/// A pair of contexts pins an identity exactly where it names a user, or a
/// group of any kind that movers do not have anyway.
pub proof fn identity_is_a_user_or_a_foreign_group(
    sc: Option<ContainerContextView>,
    psc: Option<PodContextView>,
)
    ensures
        identity_pinned(sc, psc) <==> {
            ||| pinned_user((sc, psc)) is Some
            ||| pinned_group((sc, psc)) is Some && pinned_group((sc, psc))->0 != 65532
            ||| psc is Some && psc->0.fs_group is Some && psc->0.fs_group->0 != 65532
            ||| psc is Some && psc->0.supplemental_groups is Some && exists|k: int|
                0 <= k < psc->0.supplemental_groups->0.len()
                    && #[trigger] psc->0.supplemental_groups->0[k] != 65532
        },
{
    let held = groups_held(sc, psc);
    let base = set![MOVER_NONROOT_ID];
    if pinned_group((sc, psc)) is Some && pinned_group((sc, psc))->0 != 65532 {
        assert(held.contains(pinned_group((sc, psc))->0));
        assert(!base.contains(pinned_group((sc, psc))->0));
    }
    if psc is Some && psc->0.fs_group is Some && psc->0.fs_group->0 != 65532 {
        assert(held.contains(psc->0.fs_group->0));
        assert(!base.contains(psc->0.fs_group->0));
    }
    if psc is Some && psc->0.supplemental_groups is Some {
        let groups = psc->0.supplemental_groups->0;
        if exists|k: int| 0 <= k < groups.len() && #[trigger] groups[k] != 65532 {
            let k = choose|k: int| 0 <= k < groups.len() && #[trigger] groups[k] != 65532;
            assert(groups.contains(groups[k]));
            assert(held.contains(groups[k]));
            assert(!base.contains(groups[k]));
        }
    }
    if !held.subset_of(base) {
        let g = choose|g: i64| held.contains(g) && !base.contains(g);
        if psc is Some && psc->0.supplemental_groups is Some
            && psc->0.supplemental_groups->0.contains(g) {
            let groups = psc->0.supplemental_groups->0;
            let k = choose|k: int| 0 <= k < groups.len() && groups[k] == g;
            assert(groups[k] != 65532);
        }
    }
}

/// A blank context sets no field.
pub proof fn blank_context_sets_nothing()
    ensures
        ({
            let c = SecurityContext::blank();
            let p = PodSecurityContext::blank();
            &&& c.allow_privilege_escalation is None
            &&& c.app_armor_profile is None
            &&& c.capabilities is None
            &&& c.privileged is None
            &&& c.proc_mount is None
            &&& c.read_only_root_filesystem is None
            &&& c.run_as_non_root is None
            &&& c.se_linux_options is None
            &&& c.seccomp_profile is None
            &&& c.windows_options is None
            &&& c.run_as_user is None
            &&& c.run_as_group is None
            &&& p.app_armor_profile is None
            &&& p.fs_group is None
            &&& p.fs_group_change_policy is None
            &&& p.run_as_group is None
            &&& p.run_as_non_root is None
            &&& p.run_as_user is None
            &&& p.se_linux_change_policy is None
            &&& p.se_linux_options is None
            &&& p.seccomp_profile is None
            &&& p.supplemental_groups is None
            &&& p.supplemental_groups_policy is None
            &&& p.sysctls is None
            &&& p.windows_options is None
        }),
{
}

} // verus!
