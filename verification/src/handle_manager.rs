//! The handle filter pipeline: a working list of handle contexts narrowed by
//! composable filters, the cross-process target filter, and enrichment.

use vstd::prelude::*;

use crate::handle::{SystemHandleEntry, SystemHandleType};
use crate::handle_context::{HandleContext, HandleContextView};
use crate::handle_info::{spec_info_of, HandleInfo};

verus! {

/// Full access to a process object.
pub const PROCESS_ALL_ACCESS: u32 = 0x001fffff;

/// Right to read another process' memory.
pub const PROCESS_VM_READ: u32 = 0x0010;

/// Right to write another process' memory.
pub const PROCESS_VM_WRITE: u32 = 0x0020;

/// The mathematical images of a list of handle contexts.
pub open spec fn context_views(s: Seq<HandleContext>) -> Seq<HandleContextView> {
    s.map_values(|h: HandleContext| h@)
}

/// The entry names an object of the given type index.
pub open spec fn entry_has_type(h: HandleContextView, idx: u8) -> bool {
    h.raw.object_type_index == idx
}

/// The entry sits in the handle table of the given process. The snapshot
/// stores the owner in 16 bits, so this widened comparison can only hold
/// for process ids below 65536; the targeted-at step therefore never relies
/// on it alone, but on the duplication probe.
pub open spec fn entry_owned_by(h: HandleContextView, pid: u32) -> bool {
    h.raw.process_id as u32 == pid
}

/// The entry sits in the handle table of the given process, compared as the
/// snapshot stores owners: the process id truncated to 16 bits. Exclude-self
/// uses this form, so the scanner's own entries are dropped whatever the
/// width of its process id.
pub open spec fn entry_owned_by_truncated(h: HandleContextView, pid: u32) -> bool {
    h.raw.process_id == pid as u16
}

/// The entry grants every right of the given mask.
pub open spec fn entry_has_access(h: HandleContextView, mask: u32) -> bool {
    h.raw.granted_access & mask == mask
}

/// The entry grants the minimum rights a memory-reading or writing cheat
/// needs: full access, or both read and write of the victim's memory.
pub open spec fn entry_suspicious(h: HandleContextView) -> bool {
    h.raw.granted_access == PROCESS_ALL_ACCESS || h.raw.granted_access & (PROCESS_VM_READ
        | PROCESS_VM_WRITE) == (PROCESS_VM_READ | PROCESS_VM_WRITE)
}

/// The entries naming an object of the given type index.
pub open spec fn type_filter(s: Seq<HandleContextView>, idx: u8) -> Seq<HandleContextView> {
    s.filter(|h: HandleContextView| entry_has_type(h, idx))
}

/// The entries one process owns.
pub open spec fn owner_filter(s: Seq<HandleContextView>, pid: u32) -> Seq<HandleContextView> {
    s.filter(|h: HandleContextView| entry_owned_by(h, pid))
}

/// The entries granting every right of the mask.
pub open spec fn access_filter(s: Seq<HandleContextView>, mask: u32) -> Seq<HandleContextView> {
    s.filter(|h: HandleContextView| entry_has_access(h, mask))
}

/// The entries a memory cheat could work with.
pub open spec fn suspicious_filter(s: Seq<HandleContextView>) -> Seq<HandleContextView> {
    s.filter(|h: HandleContextView| entry_suspicious(h))
}

/// The entries left once one process' own are dropped, the owner compared
/// in the snapshot's 16-bit form.
pub open spec fn exclude_pid_filter(s: Seq<HandleContextView>, pid: u32) -> Seq<
    HandleContextView,
> {
    s.filter(|h: HandleContextView| !entry_owned_by_truncated(h, pid))
}

/// The targeted-at decision for one entry: entries of the target itself are
/// dropped, and of the rest only those whose duplicated handle the system
/// resolved to the target survive. `probe` is the process id the duplicated
/// handle resolved to, or `None` where the owner could not be opened or the
/// handle could not be duplicated.
pub open spec fn keep_for_target(h: HandleContextView, probe: Option<u32>, target: u32) -> bool {
    !entry_owned_by(h, target) && probe == Some(target)
}

/// The first `k` entries narrowed by the targeted-at decision.
pub open spec fn target_filter_upto(
    s: Seq<HandleContextView>,
    probes: Seq<Option<u32>>,
    target: u32,
    k: int,
) -> Seq<HandleContextView>
    decreases k,
{
    if k <= 0 {
        Seq::empty()
    } else {
        let rest = target_filter_upto(s, probes, target, k - 1);
        if keep_for_target(s[k - 1], probes[k - 1], target) {
            rest.push(s[k - 1])
        } else {
            rest
        }
    }
}

/// The whole list narrowed by the targeted-at decision.
pub open spec fn target_filter(
    s: Seq<HandleContextView>,
    probes: Seq<Option<u32>>,
    target: u32,
) -> Seq<HandleContextView> {
    target_filter_upto(s, probes, target, s.len() as int)
}

/// Every entry enriched with the path-query outcome at its index.
pub open spec fn enrich_contexts(
    s: Seq<HandleContextView>,
    paths: Seq<Option<(Seq<char>, Seq<char>)>>,
) -> Seq<HandleContextView> {
    Seq::new(
        s.len(),
        |i: int|
            HandleContextView { raw: s[i].raw, info: Some(spec_info_of(s[i].raw, paths[i])) },
    )
}

/// No entry of the list is owned by the given process.
pub open spec fn no_entries_owned_by(s: Seq<HandleContextView>, pid: u32) -> bool {
    forall|j: int| 0 <= j < s.len() ==> !entry_owned_by(#[trigger] s[j], pid)
}

/// No entry of the list is owned by the given process, the owner compared
/// in the snapshot's 16-bit form.
pub open spec fn no_entries_owned_by_truncated(s: Seq<HandleContextView>, pid: u32) -> bool {
    forall|j: int| 0 <= j < s.len() ==> !entry_owned_by_truncated(#[trigger] s[j], pid)
}

/// One narrowing criterion of the pipeline.
#[derive(Clone, Copy)]
enum HandleCriterion {
    HasType(u8),
    OwnedBy(u32),
    HasAccess(u32),
    Suspicious,
    NotOwnedBy(u32),
}

spec fn criterion_holds(c: HandleCriterion, h: HandleContextView) -> bool {
    match c {
        HandleCriterion::HasType(idx) => entry_has_type(h, idx),
        HandleCriterion::OwnedBy(pid) => entry_owned_by(h, pid),
        HandleCriterion::HasAccess(mask) => entry_has_access(h, mask),
        HandleCriterion::Suspicious => entry_suspicious(h),
        HandleCriterion::NotOwnedBy(pid) => !entry_owned_by_truncated(h, pid),
    }
}

fn criterion_test(c: HandleCriterion, h: &HandleContext) -> (r: bool)
    ensures
        r == criterion_holds(c, h@),
{
    match c {
        HandleCriterion::HasType(idx) => h.raw.object_type_index == idx,
        HandleCriterion::OwnedBy(pid) => h.raw.process_id as u32 == pid,
        HandleCriterion::HasAccess(mask) => h.raw.granted_access & mask == mask,
        HandleCriterion::Suspicious => h.raw.granted_access == PROCESS_ALL_ACCESS || h.raw
            .granted_access & (PROCESS_VM_READ | PROCESS_VM_WRITE) == (PROCESS_VM_READ
            | PROCESS_VM_WRITE),
        HandleCriterion::NotOwnedBy(pid) => h.raw.process_id != pid as u16,
    }
}

/// Keeps the entries that meet the criterion, in order.
fn retain_entries(v: Vec<HandleContext>, c: HandleCriterion) -> (r: Vec<HandleContext>)
    ensures
        context_views(r@) == context_views(v@).filter(
            |h: HandleContextView| criterion_holds(c, h),
        ),
{
    broadcast use vstd::seq_lib::group_seq_properties;
    broadcast use Seq::lemma_filter_push;
    broadcast use Seq::lemma_push_map_commute;
    broadcast use Seq::lemma_map_take_succ;

    let ghost pred = |h: HandleContextView| criterion_holds(c, h);
    let mut kept: Vec<HandleContext> = Vec::new();
    let n = v.len();
    let mut i: usize = 0;
    proof {
        assert(context_views(kept@) =~= Seq::<HandleContextView>::empty());
        assert(context_views(v@.take(0)) =~= Seq::<HandleContextView>::empty());
    }
    while i < n
        invariant
            i <= n,
            n == v@.len(),
            pred == (|h: HandleContextView| criterion_holds(c, h)),
            context_views(kept@) == context_views(v@.take(i as int)).filter(pred),
        decreases n - i,
    {
        let ghost old_kept = kept@;
        if criterion_test(c, &v[i]) {
            kept.push(v[i].clone());
        }
        proof {
            let h = v@[i as int]@;
            let prev = context_views(v@.take(i as int));
            assert(v@.take(i + 1) =~= v@.take(i as int).push(v@[i as int]));
            assert(context_views(v@.take(i + 1)) =~= prev.push(h));
            prev.lemma_filter_push(h, pred);
            if criterion_holds(c, h) {
                assert(context_views(kept@) =~= context_views(old_kept).push(h));
                assert(prev.push(h).filter(pred) == prev.filter(pred).push(h));
            } else {
                assert(prev.push(h).filter(pred) == prev.filter(pred));
            }
        }
        i = i + 1;
    }
    proof {
        assert(v@.take(n as int) =~= v@);
    }
    kept
}

/// The working list of handle contexts, narrowed step by step. Each filter
/// consumes the pipeline and hands it back, so filters chain; no filter ever
/// rewrites an entry.
pub struct HandleManager {
    pub handles: Vec<HandleContext>,
}

impl View for HandleManager {
    type V = Seq<HandleContextView>;

    open spec fn view(&self) -> Seq<HandleContextView> {
        context_views(self.handles@)
    }
}

impl HandleManager {
    /// Wraps a freshly taken snapshot: one un-enriched context per raw entry.
    pub fn new(raw_handles: Vec<SystemHandleEntry>) -> (r: Self)
        ensures
            r@.len() == raw_handles@.len(),
            forall|i: int|
                0 <= i < raw_handles@.len() ==> #[trigger] r@[i] == (HandleContextView {
                    raw: raw_handles@[i],
                    info: None,
                }),
    {
        let mut handles: Vec<HandleContext> = Vec::new();
        let n = raw_handles.len();
        let mut i: usize = 0;
        while i < n
            invariant
                i <= n,
                n == raw_handles@.len(),
                handles@.len() == i as int,
                forall|j: int|
                    0 <= j < i as int ==> #[trigger] handles@[j]@ == (HandleContextView {
                        raw: raw_handles@[j],
                        info: None,
                    }),
            decreases n - i,
        {
            handles.push(HandleContext { raw: raw_handles[i], info: None });
            i = i + 1;
        }
        let r = HandleManager { handles };
        proof {
            assert(forall|i: int|
                0 <= i < raw_handles@.len() ==> #[trigger] r@[i] == (HandleContextView {
                    raw: raw_handles@[i],
                    info: None,
                }));
        }
        r
    }

    /// Keeps the entries whose object type has the given index. The index is
    /// best resolved at run time — it differs between OS versions — with the
    /// tags' well-known values as the fallback.
    pub fn filter_by_type_index(self, object_type_index: u8) -> (r: Self)
        ensures
            r@ == type_filter(self@, object_type_index),
    {
        let kept = retain_entries(self.handles, HandleCriterion::HasType(object_type_index));
        proof {
            assert((|h: HandleContextView|
                criterion_holds(HandleCriterion::HasType(object_type_index), h)) =~= (|h:
                HandleContextView|
            entry_has_type(h, object_type_index)));
        }
        HandleManager { handles: kept }
    }

    /// Keeps the entries whose object type matches the tag's well-known
    /// index.
    pub fn filter_by_handle_type(self, system_handle_type: SystemHandleType) -> (r: Self)
        ensures
            r@ == type_filter(self@, system_handle_type.spec_os_index()),
    {
        let idx = system_handle_type.os_index();
        self.filter_by_type_index(idx)
    }

    /// Keeps the entries owned by the given process.
    pub fn filter_by_parent_pid(self, pid: u32) -> (r: Self)
        ensures
            r@ == owner_filter(self@, pid),
    {
        let kept = retain_entries(self.handles, HandleCriterion::OwnedBy(pid));
        proof {
            assert((|h: HandleContextView| criterion_holds(HandleCriterion::OwnedBy(pid), h)) =~= (
            |h: HandleContextView| entry_owned_by(h, pid)));
        }
        HandleManager { handles: kept }
    }

    /// Keeps the entries granting every right of the required mask.
    pub fn filter_by_access(self, required_access: u32) -> (r: Self)
        ensures
            r@ == access_filter(self@, required_access),
    {
        let kept = retain_entries(self.handles, HandleCriterion::HasAccess(required_access));
        proof {
            assert((|h: HandleContextView|
                criterion_holds(HandleCriterion::HasAccess(required_access), h)) =~= (|h:
                HandleContextView|
            entry_has_access(h, required_access)));
        }
        HandleManager { handles: kept }
    }

    /// Keeps the entries whose granted access a memory cheat would need.
    pub fn filter_suspicious_handles(self) -> (r: Self)
        ensures
            r@ == suspicious_filter(self@),
    {
        let kept = retain_entries(self.handles, HandleCriterion::Suspicious);
        proof {
            assert((|h: HandleContextView| criterion_holds(HandleCriterion::Suspicious, h)) =~= (|h:
                HandleContextView|
            entry_suspicious(h)));
        }
        HandleManager { handles: kept }
    }

    /// Drops the entries owned by the scanner's own process. The snapshot
    /// stores owners in 16 bits, so the scanner's process id is compared
    /// truncated to that width.
    pub fn filter_anticheat_handles(self, anticheat_pid: u32) -> (r: Self)
        ensures
            r@ == exclude_pid_filter(self@, anticheat_pid),
            no_entries_owned_by_truncated(r@, anticheat_pid),
    {
        let kept = retain_entries(self.handles, HandleCriterion::NotOwnedBy(anticheat_pid));
        proof {
            assert((|h: HandleContextView|
                criterion_holds(HandleCriterion::NotOwnedBy(anticheat_pid), h)) =~= (|h:
                HandleContextView|
            !entry_owned_by_truncated(h, anticheat_pid)));
        }
        let r = HandleManager { handles: kept };
        proof {
            lemma_exclude_pid_filter_excludes(self@, anticheat_pid);
        }
        r
    }

    /// The targeted-at step: keeps the entries of other processes whose
    /// duplicated handle the system resolved to the target process. The probe
    /// at index `i` is the outcome for the entry at index `i`: the process id
    /// the duplicated handle referred to, or `None` where opening the owner
    /// or duplicating the handle failed.
    pub fn filter_handles_to_target(self, target_pid: u32, probes: &Vec<Option<u32>>) -> (r: Self)
        requires
            probes@.len() == self@.len(),
        ensures
            r@ == target_filter(self@, probes@, target_pid),
            no_entries_owned_by(r@, target_pid),
            forall|j: int|
                0 <= j < r@.len() ==> from_probed_entry(self@, probes@, target_pid, #[trigger] r@[j]),
    {
        let mut kept: Vec<HandleContext> = Vec::new();
        let n = self.handles.len();
        let mut i: usize = 0;
        proof {
            assert(context_views(kept@) =~= target_filter_upto(self@, probes@, target_pid, 0));
        }
        while i < n
            invariant
                i <= n,
                n == self.handles@.len(),
                probes@.len() == self@.len(),
                self@.len() == self.handles@.len(),
                self@ == context_views(self.handles@),
                context_views(kept@) == target_filter_upto(self@, probes@, target_pid, i as int),
            decreases n - i,
        {
            let ghost old_kept = kept@;
            let entry = &self.handles[i];
            let keep = entry.raw.process_id as u32 != target_pid && match probes[i] {
                Some(pid) => pid == target_pid,
                None => false,
            };
            if keep {
                kept.push(entry.clone());
            }
            proof {
                if keep_for_target(self@[i as int], probes@[i as int], target_pid) {
                    assert(kept@ =~= old_kept.push(kept@.last()));
                    assert(context_views(kept@) =~= context_views(old_kept).push(
                        self@[i as int],
                    ));
                }
            }
            i = i + 1;
        }
        let r = HandleManager { handles: kept };
        proof {
            lemma_target_filter_membership(self@, probes@, target_pid);
        }
        r
    }

    /// Enriches every surviving entry with the path-query outcome at its
    /// index and its decoded access rights. A failed query leaves the paths
    /// empty; no entry is dropped.
    pub fn collect_handle_info(self, paths: &Vec<Option<(String, String)>>) -> (r: Self)
        requires
            paths@.len() == self@.len(),
        ensures
            r@ == enrich_contexts(self@, paths.deep_view()),
    {
        let mut enriched: Vec<HandleContext> = Vec::new();
        let n = self.handles.len();
        let mut i: usize = 0;
        while i < n
            invariant
                i <= n,
                n == self.handles@.len(),
                paths@.len() == self@.len(),
                self@.len() == self.handles@.len(),
                self@ == context_views(self.handles@),
                paths.deep_view().len() == paths@.len(),
                enriched@.len() == i as int,
                forall|j: int|
                    0 <= j < i as int ==> #[trigger] enriched@[j]@ == (HandleContextView {
                        raw: self@[j].raw,
                        info: Some(spec_info_of(self@[j].raw, paths.deep_view()[j])),
                    }),
            decreases n - i,
        {
            let entry = &self.handles[i];
            let entry_paths: Option<(String, String)> = match &paths[i] {
                Some(p) => Some((p.0.clone(), p.1.clone())),
                None => None,
            };
            proof {
                assert(entry_paths.deep_view() == paths.deep_view()[i as int]);
            }
            let info = HandleInfo::from_handle_entry(&entry.raw, entry_paths);
            enriched.push(HandleContext { raw: entry.raw, info: Some(info) });
            i = i + 1;
        }
        let r = HandleManager { handles: enriched };
        proof {
            assert(r@ =~= enrich_contexts(self@, paths.deep_view()));
        }
        r
    }

    /// The current working list, cloned.
    pub fn get_handles(&self) -> (r: Vec<HandleContext>)
        ensures
            context_views(r@) == self@,
    {
        let mut r: Vec<HandleContext> = Vec::new();
        let n = self.handles.len();
        let mut i: usize = 0;
        while i < n
            invariant
                i <= n,
                n == self.handles@.len(),
                r@.len() == i as int,
                forall|j: int| 0 <= j < i as int ==> #[trigger] r@[j]@ == self.handles@[j]@,
            decreases n - i,
        {
            r.push(self.handles[i].clone());
            i = i + 1;
        }
        proof {
            assert(context_views(r@) =~= context_views(self.handles@));
        }
        r
    }
}

/// Every entry a filter keeps meets its predicate and comes from the list
/// the filter was given.
proof fn lemma_filter_membership<A>(s: Seq<A>, p: spec_fn(A) -> bool)
    ensures
        forall|j: int|
            0 <= j < s.filter(p).len() ==> p(#[trigger] s.filter(p)[j]) && s.contains(
                s.filter(p)[j],
            ),
{
    broadcast use Seq::lemma_filter_pred;

    assert forall|j: int| 0 <= j < s.filter(p).len() implies p(#[trigger] s.filter(p)[j])
        && s.contains(s.filter(p)[j]) by {
        let e = s.filter(p)[j];
        assert(s.filter(p).contains(e));
        s.lemma_filter_contains_rev(p, e);
    }
}

/// Dropping the entries of one process leaves none of its entries behind.
pub proof fn lemma_exclude_pid_filter_excludes(s: Seq<HandleContextView>, pid: u32)
    ensures
        no_entries_owned_by_truncated(exclude_pid_filter(s, pid), pid),
{
    lemma_filter_membership(s, |h: HandleContextView| !entry_owned_by_truncated(h, pid));
}

/// Once no entry of a list is the scanner's own, no later filter can bring
/// such an entry back: filters only keep entries of the list they are given.
pub proof fn lemma_exclusion_stable_under_filter(
    s: Seq<HandleContextView>,
    pid: u32,
    p: spec_fn(HandleContextView) -> bool,
)
    requires
        no_entries_owned_by_truncated(s, pid),
    ensures
        no_entries_owned_by_truncated(s.filter(p), pid),
{
    lemma_filter_membership(s, p);
    assert forall|j: int| 0 <= j < s.filter(p).len() implies !entry_owned_by_truncated(
        #[trigger] s.filter(p)[j],
        pid,
    ) by {
        let e = s.filter(p)[j];
        assert(s.contains(e));
        let i = choose|i: int| 0 <= i < s.len() && s[i] == e;
        assert(!entry_owned_by_truncated(s[i], pid));
    }
}

/// The entry equals one of the given list whose probe resolved to the
/// target: the property every survivor of the targeted-at step has.
pub open spec fn from_probed_entry(
    s: Seq<HandleContextView>,
    probes: Seq<Option<u32>>,
    target: u32,
    e: HandleContextView,
) -> bool {
    exists|i: int|
        0 <= i < s.len() && s[i] == e && #[trigger] keep_for_target(s[i], probes[i], target)
}

/// Every entry the targeted-at step keeps comes from the list it was given
/// and was probed to the target.
proof fn lemma_target_filter_upto_membership(
    s: Seq<HandleContextView>,
    probes: Seq<Option<u32>>,
    target: u32,
    k: int,
)
    requires
        k <= s.len(),
    ensures
        forall|j: int|
            0 <= j < target_filter_upto(s, probes, target, k).len() ==> from_probed_entry(
                s,
                probes,
                target,
                #[trigger] target_filter_upto(s, probes, target, k)[j],
            ),
    decreases k,
{
    if k > 0 {
        lemma_target_filter_upto_membership(s, probes, target, k - 1);
        let prev = target_filter_upto(s, probes, target, k - 1);
        let cur = target_filter_upto(s, probes, target, k);
        assert forall|j: int| 0 <= j < cur.len() implies from_probed_entry(
            s,
            probes,
            target,
            #[trigger] cur[j],
        ) by {
            if j < prev.len() {
                assert(cur[j] == prev[j]);
                assert(from_probed_entry(s, probes, target, prev[j]));
            } else {
                assert(keep_for_target(s[k - 1], probes[k - 1], target));
                assert(cur[j] == s[k - 1]);
            }
        }
    }
}

/// The targeted-at property, stated of the whole step: what it keeps comes
/// from the given list, was probed to the target, and is not the target's.
pub proof fn lemma_target_filter_membership(
    s: Seq<HandleContextView>,
    probes: Seq<Option<u32>>,
    target: u32,
)
    ensures
        forall|j: int|
            0 <= j < target_filter(s, probes, target).len() ==> from_probed_entry(
                s,
                probes,
                target,
                #[trigger] target_filter(s, probes, target)[j],
            ),
        no_entries_owned_by(target_filter(s, probes, target), target),
{
    lemma_target_filter_upto_membership(s, probes, target, s.len() as int);
    let r = target_filter(s, probes, target);
    assert forall|j: int| 0 <= j < r.len() implies !entry_owned_by(#[trigger] r[j], target) by {
        assert(from_probed_entry(s, probes, target, r[j]));
        let i = choose|i: int|
            0 <= i < s.len() && s[i] == r[j] && #[trigger] keep_for_target(
                s[i],
                probes[i],
                target,
            );
        assert(!entry_owned_by(s[i], target));
    }
}

/// The targeted-at step is complete: an entry that is foreign to the target
/// and whose probe resolved to the target stands in the result.
pub proof fn lemma_target_filter_complete(
    s: Seq<HandleContextView>,
    probes: Seq<Option<u32>>,
    target: u32,
    i: int,
)
    requires
        0 <= i < s.len(),
        keep_for_target(s[i], probes[i], target),
    ensures
        target_filter(s, probes, target).contains(s[i]),
{
    lemma_target_filter_upto_complete(s, probes, target, s.len() as int, i);
}

proof fn lemma_target_filter_upto_complete(
    s: Seq<HandleContextView>,
    probes: Seq<Option<u32>>,
    target: u32,
    k: int,
    i: int,
)
    requires
        0 <= i < k <= s.len(),
        keep_for_target(s[i], probes[i], target),
    ensures
        target_filter_upto(s, probes, target, k).contains(s[i]),
    decreases k,
{
    let cur = target_filter_upto(s, probes, target, k);
    if i == k - 1 {
        assert(cur[cur.len() - 1] == s[i]);
    } else {
        lemma_target_filter_upto_complete(s, probes, target, k - 1, i);
        let prev = target_filter_upto(s, probes, target, k - 1);
        let j = choose|j: int| 0 <= j < prev.len() && prev[j] == s[i];
        assert(cur[j] == s[i]);
    }
}

/// Once no entry of a list is the scanner's own, the targeted-at step keeps
/// it that way, whatever the probes said.
pub proof fn lemma_exclusion_stable_under_target_filter(
    s: Seq<HandleContextView>,
    probes: Seq<Option<u32>>,
    target: u32,
    pid: u32,
)
    requires
        no_entries_owned_by_truncated(s, pid),
    ensures
        no_entries_owned_by_truncated(target_filter(s, probes, target), pid),
{
    lemma_target_filter_membership(s, probes, target);
    let r = target_filter(s, probes, target);
    assert forall|j: int| 0 <= j < r.len() implies !entry_owned_by_truncated(
        #[trigger] r[j],
        pid,
    ) by {
        assert(from_probed_entry(s, probes, target, r[j]));
        let i = choose|i: int|
            0 <= i < s.len() && s[i] == r[j] && #[trigger] keep_for_target(
                s[i],
                probes[i],
                target,
            );
        assert(!entry_owned_by_truncated(s[i], pid));
    }
}

/// Dropping one process' entries and then narrowing by any predicate never
/// returns an entry of that process.
pub proof fn lemma_exclude_self_then_filter(
    s: Seq<HandleContextView>,
    pid: u32,
    p: spec_fn(HandleContextView) -> bool,
)
    ensures
        no_entries_owned_by_truncated(exclude_pid_filter(s, pid).filter(p), pid),
{
    lemma_exclude_pid_filter_excludes(s, pid);
    lemma_exclusion_stable_under_filter(exclude_pid_filter(s, pid), pid, p);
}

/// Dropping one process' entries and then running the targeted-at step never
/// returns an entry of that process, whatever the probes said.
pub proof fn lemma_exclude_self_then_target_filter(
    s: Seq<HandleContextView>,
    pid: u32,
    probes: Seq<Option<u32>>,
    target: u32,
)
    ensures
        no_entries_owned_by_truncated(target_filter(exclude_pid_filter(s, pid), probes, target), pid),
{
    lemma_exclude_pid_filter_excludes(s, pid);
    lemma_exclusion_stable_under_target_filter(exclude_pid_filter(s, pid), probes, target, pid);
}

/// Filtering twice with one predicate is filtering once.
proof fn lemma_filter_idempotent<A>(s: Seq<A>, p: spec_fn(A) -> bool)
    ensures
        s.filter(p).filter(p) == s.filter(p),
    decreases s.len(),
{
    broadcast use Seq::lemma_filter_push;

    reveal(Seq::filter);
    if s.len() > 0 {
        let rest = s.drop_last();
        let last = s.last();
        assert(s =~= rest.push(last));
        lemma_filter_idempotent(rest, p);
    }
}

/// Two filters may run in either order.
proof fn lemma_filter_commutes<A>(s: Seq<A>, p: spec_fn(A) -> bool, q: spec_fn(A) -> bool)
    ensures
        s.filter(p).filter(q) == s.filter(q).filter(p),
    decreases s.len(),
{
    broadcast use Seq::lemma_filter_push;

    reveal(Seq::filter);
    if s.len() > 0 {
        let rest = s.drop_last();
        let last = s.last();
        assert(s =~= rest.push(last));
        lemma_filter_commutes(rest, p, q);
    }
}

/// Narrowing to suspicious entries is idempotent: a second pass keeps
/// exactly what the first one kept.
pub proof fn lemma_suspicious_only_idempotent(s: Seq<HandleContextView>)
    ensures
        suspicious_filter(suspicious_filter(s)) == suspicious_filter(s),
{
    lemma_filter_idempotent(s, |h: HandleContextView| entry_suspicious(h));
}

/// Narrowing to suspicious entries and dropping the scanner's own entries
/// commute: the two passes may run in either order.
pub proof fn lemma_suspicious_only_commutes_with_exclude_self(
    s: Seq<HandleContextView>,
    self_pid: u32,
)
    ensures
        suspicious_filter(exclude_pid_filter(s, self_pid)) == exclude_pid_filter(
            suspicious_filter(s),
            self_pid,
        ),
{
    lemma_filter_commutes(
        s,
        |h: HandleContextView| !entry_owned_by_truncated(h, self_pid),
        |h: HandleContextView| entry_suspicious(h),
    );
}

} // verus!
