//! The scan orchestrator: the target, the two scanning pipelines, the
//! detection counts, and the rendered scan report.

use vstd::prelude::*;
use vstd::string::StringExecFns;

use crate::handle_context::{spec_render_context, HandleContext, HandleContextView};
use crate::handle_info::{
    lemma_decode_contains_read_write, spec_decode_access_mask, spec_info_of,
};
use crate::handle_manager::{
    enrich_contexts, entry_owned_by, exclude_pid_filter, keep_for_target,
    lemma_target_filter_complete, suspicious_filter, target_filter, type_filter, HandleManager,
    PROCESS_VM_READ, PROCESS_VM_WRITE,
};
use crate::overlay_finder::{overlay_matches, window_views, OverlayFinder};
use crate::process::Process;
use crate::text::{
    contains_block, is_dec_digit, lemma_contains_block_extend_left,
    lemma_contains_block_extend_right, lemma_parse_leading_count_of_concat, parse_leading_count,
    spec_dec_digits, u64_to_dec,
};
use crate::window_info::{spec_render_window, ScreenMetrics, WindowInfo, WindowInfoView};

verus! {

/// Chat embed colour for a scan with detections.
pub const DETECTION_COLOR: u32 = 15548997;

/// Chat embed colour for a clean scan.
pub const CLEAN_COLOR: u32 = 5763719;

/// One scan of one target: the process under scrutiny, the handle pipeline,
/// the overlay finder, and what the scan found. The OS work between the
/// stages — taking the snapshot, probing owners, querying image paths and
/// enumerating windows — happens outside; each stage consumes its outcome.
pub struct Anticheat {
    pub process: Process,
    pub handle_manager: HandleManager,
    pub overlay_finder: OverlayFinder,
    pub handle_detections: usize,
    pub overlay_detections: usize,
    pub webhook_url: String,
}

impl Anticheat {
    /// A scan over a target and a freshly wrapped handle snapshot, before
    /// any filtering has run.
    pub fn new(process: Process, handle_manager: HandleManager) -> (r: Self)
        ensures
            r.process@ == process@,
            r.handle_manager@ == handle_manager@,
            r.overlay_finder@.params == crate::overlay_finder_params::spec_default_params(),
            r.overlay_finder@.overlays.len() == 0,
            r.handle_detections == 0,
            r.overlay_detections == 0,
            r.webhook_url@ == "No webhook url parsed!"@,
    {
        Anticheat {
            process,
            handle_manager,
            overlay_finder: OverlayFinder::new(),
            handle_detections: 0,
            overlay_detections: 0,
            webhook_url: "No webhook url parsed!".to_owned(),
        }
    }

    /// The pure narrowing stage of the handle scan: keep process handles,
    /// keep suspicious access, drop the scanner's own entries. The caller
    /// passes the process object's type index, resolved at run time where it
    /// can be — the index differs between OS versions — with
    /// `SystemHandleType::Process.os_index()` as the fallback.
    pub fn apply_handle_filters(self, anticheat_pid: u32, process_type_index: u8) -> (r: Self)
        ensures
            r.handle_manager@ == exclude_pid_filter(
                suspicious_filter(type_filter(self.handle_manager@, process_type_index)),
                anticheat_pid,
            ),
            r.process == self.process,
            r.overlay_finder == self.overlay_finder,
            r.handle_detections == self.handle_detections,
            r.overlay_detections == self.overlay_detections,
            r.webhook_url == self.webhook_url,
    {
        let Anticheat {
            process,
            handle_manager,
            overlay_finder,
            handle_detections,
            overlay_detections,
            webhook_url,
        } = self;
        let handle_manager = handle_manager
            .filter_by_type_index(process_type_index)
            .filter_suspicious_handles()
            .filter_anticheat_handles(anticheat_pid);
        Anticheat {
            process,
            handle_manager,
            overlay_finder,
            handle_detections,
            overlay_detections,
            webhook_url,
        }
    }

    /// The targeted-at stage: for each remaining entry, the probe at its
    /// index says which process the entry's duplicated handle resolved to.
    pub fn apply_target_filter(self, probes: &Vec<Option<u32>>) -> (r: Self)
        requires
            probes@.len() == self.handle_manager@.len(),
        ensures
            r.handle_manager@ == target_filter(
                self.handle_manager@,
                probes@,
                self.process.pid,
            ),
            r.process == self.process,
            r.overlay_finder == self.overlay_finder,
            r.handle_detections == self.handle_detections,
            r.overlay_detections == self.overlay_detections,
            r.webhook_url == self.webhook_url,
    {
        let Anticheat {
            process,
            handle_manager,
            overlay_finder,
            handle_detections,
            overlay_detections,
            webhook_url,
        } = self;
        let handle_manager = handle_manager.filter_handles_to_target(process.pid, probes);
        Anticheat {
            process,
            handle_manager,
            overlay_finder,
            handle_detections,
            overlay_detections,
            webhook_url,
        }
    }

    /// The enrichment stage: attach the path-query outcomes and the decoded
    /// rights, and count what survived as the handle detections.
    pub fn apply_enrichment(self, paths: &Vec<Option<(String, String)>>) -> (r: Self)
        requires
            paths@.len() == self.handle_manager@.len(),
        ensures
            r.handle_manager@ == enrich_contexts(self.handle_manager@, paths.deep_view()),
            r.handle_detections == self.handle_manager@.len(),
            r.process == self.process,
            r.overlay_finder == self.overlay_finder,
            r.overlay_detections == self.overlay_detections,
            r.webhook_url == self.webhook_url,
    {
        let Anticheat {
            process,
            handle_manager,
            overlay_finder,
            handle_detections: _,
            overlay_detections,
            webhook_url,
        } = self;
        let handle_detections = handle_manager.handles.len();
        let handle_manager = handle_manager.collect_handle_info(paths);
        Anticheat {
            process,
            handle_manager,
            overlay_finder,
            handle_detections,
            overlay_detections,
            webhook_url,
        }
    }

    /// The overlay stage: score the window snapshot once against the
    /// configured criteria and count the accepted windows.
    pub fn apply_overlay_scan(self, windows: &Vec<WindowInfo>, metrics: &ScreenMetrics) -> (r:
        Self)
        ensures
            r.overlay_finder@.params == self.overlay_finder@.params,
            r.overlay_finder@.overlays == overlay_matches(
                self.overlay_finder@.params,
                window_views(windows@),
                *metrics,
            ),
            r.overlay_detections == r.overlay_finder@.overlays.len(),
            r.process == self.process,
            r.handle_manager == self.handle_manager,
            r.handle_detections == self.handle_detections,
            r.webhook_url == self.webhook_url,
    {
        let Anticheat {
            process,
            handle_manager,
            mut overlay_finder,
            handle_detections,
            overlay_detections: _,
            webhook_url,
        } = self;
        let matched = overlay_finder.find(windows, metrics);
        let overlay_detections = matched.len();
        proof {
            assert(window_views(matched@).len() == matched@.len());
        }
        Anticheat {
            process,
            handle_manager,
            overlay_finder,
            handle_detections,
            overlay_detections,
            webhook_url,
        }
    }

    /// The target under scrutiny.
    pub fn process(&self) -> (r: &Process)
        ensures
            r == &self.process,
    {
        &self.process
    }

    /// The handle pipeline in its current state.
    pub fn handle_manager(&self) -> (r: &HandleManager)
        ensures
            r == &self.handle_manager,
    {
        &self.handle_manager
    }

    /// The working list of handle contexts.
    pub fn handles(&self) -> (r: &Vec<HandleContext>)
        ensures
            r == &self.handle_manager.handles,
    {
        &self.handle_manager.handles
    }

    /// How many suspicious handles the scan found.
    pub fn handle_detections(&self) -> (r: usize)
        ensures
            r == self.handle_detections,
    {
        self.handle_detections
    }

    /// The overlay finder with its criteria and last matches.
    pub fn overlay_finder(&self) -> (r: &OverlayFinder)
        ensures
            r == &self.overlay_finder,
    {
        &self.overlay_finder
    }

    /// The windows the overlay pass accepted.
    pub fn overlays(&self) -> (r: &Vec<WindowInfo>)
        ensures
            r == &self.overlay_finder.overlays,
    {
        &self.overlay_finder.overlays
    }

    /// How many overlay windows the scan found.
    pub fn overlay_detections(&self) -> (r: usize)
        ensures
            r == self.overlay_detections,
    {
        self.overlay_detections
    }

    /// Whether the scan found anything: a suspicious handle or an overlay.
    pub fn has_detections(&self) -> (r: bool)
        ensures
            r == (self.handle_detections > 0 || self.overlay_detections > 0),
    {
        self.handle_detections > 0 || self.overlay_detections > 0
    }

    /// Records the chat webhook endpoint, or a placeholder where the
    /// environment did not provide one.
    pub fn parse_webhook_url(&mut self, url: Option<String>)
        ensures
            final(self).webhook_url@ == match url {
                Some(u) => u@,
                None => "No webhook url parsed!"@,
            },
            final(self).process == old(self).process,
            final(self).handle_manager == old(self).handle_manager,
            final(self).overlay_finder == old(self).overlay_finder,
            final(self).handle_detections == old(self).handle_detections,
            final(self).overlay_detections == old(self).overlay_detections,
    {
        self.webhook_url = match url {
            Some(u) => u,
            None => "No webhook url parsed!".to_owned(),
        };
    }

    /// The chat message of the scan: a one-line verdict and the embed
    /// colour, red on detections and green on a clean scan.
    pub fn webhook_summary(&self) -> (r: (String, u32))
        ensures
            self.handle_detections > 0 || self.overlay_detections > 0 ==> r.0@
                == "Found suspicious activity"@ && r.1 == DETECTION_COLOR,
            self.handle_detections == 0 && self.overlay_detections == 0 ==> r.0@
                == "Did not find suspicious activity."@ && r.1 == CLEAN_COLOR,
    {
        if self.has_detections() {
            ("Found suspicious activity".to_owned(), DETECTION_COLOR)
        } else {
            ("Did not find suspicious activity.".to_owned(), CLEAN_COLOR)
        }
    }
}

/// The report blocks of the surviving handles, one blank-line-separated
/// block per entry.
pub open spec fn spec_render_contexts(s: Seq<HandleContextView>) -> Seq<char>
    decreases s.len(),
{
    if s.len() == 0 {
        Seq::empty()
    } else {
        spec_render_contexts(s.drop_last()) + spec_render_context(s.last()) + "\n"@
    }
}

/// The report blocks of the accepted overlay windows.
pub open spec fn spec_render_windows(s: Seq<WindowInfoView>) -> Seq<char>
    decreases s.len(),
{
    if s.len() == 0 {
        Seq::empty()
    } else {
        spec_render_windows(s.drop_last()) + spec_render_window(s.last()) + "\n"@
    }
}

/// The handle section of a detection report: the handle count, its header
/// line, then one block per surviving handle.
pub open spec fn spec_handle_section(a: Anticheat) -> Seq<char> {
    spec_dec_digits(a.handle_detections as nat) + " suspicious handles found.\n"@
        + spec_render_contexts(a.handle_manager@)
}

/// The overlay section of a detection report: the overlay count, its header
/// line, then one block per accepted window.
pub open spec fn spec_overlay_section(a: Anticheat) -> Seq<char> {
    spec_dec_digits(a.overlay_detections as nat) + " suspicious overlays found.\n"@
        + spec_render_windows(a.overlay_finder@.overlays)
}

/// The scan report: a fixed sentence when nothing was found, else the two
/// counted sections with one block per finding.
pub open spec fn spec_report(a: Anticheat) -> Seq<char> {
    if a.handle_detections == 0 && a.overlay_detections == 0 {
        "No suspicious handles or overlays detected."@
    } else {
        spec_dec_digits(a.handle_detections as nat) + " suspicious handles found.\n"@
            + spec_render_contexts(a.handle_manager@) + spec_dec_digits(
            a.overlay_detections as nat,
        ) + " suspicious overlays found.\n"@ + spec_render_windows(a.overlay_finder@.overlays)
    }
}

impl Anticheat {
    /// Renders the scan report.
    #[verifier::rlimit(50)]
    pub fn render_report(&self) -> (r: String)
        ensures
            r@ == spec_report(*self),
    {
        if self.handle_detections == 0 && self.overlay_detections == 0 {
            return "No suspicious handles or overlays detected.".to_owned();
        }
        let mut out = u64_to_dec(self.handle_detections as u64);
        out.append(" suspicious handles found.\n");
        let handles = &self.handle_manager.handles;
        let n = handles.len();
        let mut i: usize = 0;
        let ghost head = out@;
        while i < n
            invariant
                i <= n,
                n == handles@.len(),
                out@ == head + spec_render_contexts(
                    crate::handle_manager::context_views(handles@).take(i as int),
                ),
            decreases n - i,
        {
            let block = handles[i].render();
            out.append(block.as_str());
            out.append("\n");
            proof {
                let views = crate::handle_manager::context_views(handles@);
                assert(views.take(i + 1).drop_last() =~= views.take(i as int));
                assert(views.take(i + 1).last() == views[i as int]);
            }
            i = i + 1;
        }
        proof {
            let views = crate::handle_manager::context_views(handles@);
            assert(views.take(n as int) =~= views);
        }
        let overlay_count = u64_to_dec(self.overlay_detections as u64);
        out.append(overlay_count.as_str());
        out.append(" suspicious overlays found.\n");
        let overlays = &self.overlay_finder.overlays;
        let m = overlays.len();
        let mut j: usize = 0;
        let ghost mid = out@;
        while j < m
            invariant
                j <= m,
                m == overlays@.len(),
                out@ == mid + spec_render_windows(window_views(overlays@).take(j as int)),
            decreases m - j,
        {
            let block = overlays[j].render();
            out.append(block.as_str());
            out.append("\n");
            proof {
                let views = window_views(overlays@);
                assert(views.take(j + 1).drop_last() =~= views.take(j as int));
                assert(views.take(j + 1).last() == views[j as int]);
            }
            j = j + 1;
        }
        proof {
            let views = window_views(overlays@);
            assert(views.take(m as int) =~= views);
        }
        out
    }
}

/// Re-parsing the leading count of a report with detections recovers the
/// number of suspicious handles the report was rendered from.
pub proof fn lemma_report_count_round_trip(a: Anticheat)
    requires
        a.handle_detections > 0 || a.overlay_detections > 0,
    ensures
        parse_leading_count(spec_report(a)) == Some(a.handle_detections as int),
{
    let tail = " suspicious handles found.\n"@ + spec_render_contexts(a.handle_manager@)
        + spec_dec_digits(a.overlay_detections as nat) + " suspicious overlays found.\n"@
        + spec_render_windows(a.overlay_finder@.overlays);
    reveal_strlit(" suspicious handles found.\n");
    assert(tail[0] == ' ');
    assert(!is_dec_digit(' '));
    assert(spec_report(a) =~= spec_dec_digits(a.handle_detections as nat) + tail);
    lemma_parse_leading_count_of_concat(a.handle_detections as nat, tail);
}

/// A detection report is exactly its handle section followed by its overlay
/// section, and re-parsing the leading count of the overlay section recovers
/// the number of overlay windows the report was rendered from.
pub proof fn lemma_overlay_count_round_trip(a: Anticheat)
    requires
        a.handle_detections > 0 || a.overlay_detections > 0,
    ensures
        spec_report(a) == spec_handle_section(a) + spec_overlay_section(a),
        parse_leading_count(spec_overlay_section(a)) == Some(a.overlay_detections as int),
{
    assert(spec_report(a) =~= spec_handle_section(a) + spec_overlay_section(a));
    let tail = " suspicious overlays found.\n"@ + spec_render_windows(a.overlay_finder@.overlays);
    reveal_strlit(" suspicious overlays found.\n");
    assert(tail[0] == ' ');
    assert(!is_dec_digit(' '));
    assert(spec_overlay_section(a) =~= spec_dec_digits(a.overlay_detections as nat) + tail);
    lemma_parse_leading_count_of_concat(a.overlay_detections as nat, tail);
}

/// Each surviving entry's block stands contiguously among the rendered
/// handle blocks.
pub proof fn lemma_block_in_render_contexts(s: Seq<HandleContextView>, j: int)
    requires
        0 <= j < s.len(),
    ensures
        contains_block(spec_render_contexts(s), spec_render_context(s[j])),
    decreases s.len(),
{
    let whole = spec_render_contexts(s);
    let block = spec_render_context(s[j]);
    let prefix = spec_render_contexts(s.drop_last());
    if j == s.len() - 1 {
        let off = prefix.len() as int;
        assert(whole.subrange(off, off + block.len() as int) =~= block);
    } else {
        lemma_block_in_render_contexts(s.drop_last(), j);
        assert(s.drop_last()[j] == s[j]);
        lemma_contains_block_extend_right(
            prefix,
            spec_render_context(s.last()) + "\n"@,
            block,
        );
        assert(whole =~= prefix + (spec_render_context(s.last()) + "\n"@));
    }
}

/// A foreign reader is reported. Where some snapshot entry is foreign to the
/// target, grants both memory rights, and was probed to the target, then in
/// a scan whose targeted-at and enrichment stages ran over that snapshot at
/// least one handle detection is counted, the entry stands among the
/// survivors with both right names decoded, and its rendered block stands
/// contiguously in the scan report.
pub proof fn lemma_foreign_reader_detected(
    a: Anticheat,
    s: Seq<HandleContextView>,
    probes: Seq<Option<u32>>,
    paths: Seq<Option<(Seq<char>, Seq<char>)>>,
    i: int,
)
    requires
        probes.len() == s.len(),
        0 <= i < s.len(),
        !entry_owned_by(s[i], a.process.pid),
        probes[i] == Some(a.process.pid),
        s[i].raw.granted_access & (PROCESS_VM_READ | PROCESS_VM_WRITE) == (PROCESS_VM_READ
            | PROCESS_VM_WRITE),
        paths.len() == target_filter(s, probes, a.process.pid).len(),
        a.handle_manager@ == enrich_contexts(target_filter(s, probes, a.process.pid), paths),
        a.handle_detections == a.handle_manager@.len(),
    ensures
        a.handle_detections >= 1,
        exists|j: int|
            0 <= j < a.handle_manager@.len() && (#[trigger] a.handle_manager@[j]).raw == s[i].raw
                && a.handle_manager@[j].info is Some
                && a.handle_manager@[j].info->0.access_rights.contains("PROCESS_VM_READ"@)
                && a.handle_manager@[j].info->0.access_rights.contains("PROCESS_VM_WRITE"@)
                && contains_block(spec_report(a), spec_render_context(a.handle_manager@[j])),
{
    let target = a.process.pid;
    let kept = target_filter(s, probes, target);
    let enriched = a.handle_manager@;
    assert(keep_for_target(s[i], probes[i], target));
    lemma_target_filter_complete(s, probes, target, i);
    let j = choose|j: int| 0 <= j < kept.len() && kept[j] == s[i];
    assert(enriched[j].raw == s[i].raw);
    assert(enriched[j].info == Some(spec_info_of(kept[j].raw, paths[j])));
    assert(enriched[j].info->0.access_rights == spec_decode_access_mask(s[i].raw.granted_access));
    assert(0x10u32 | 0x20u32 == 0x30u32) by (bit_vector);
    assert(s[i].raw.granted_access & 0x30u32 == 0x30u32);
    lemma_decode_contains_read_write(s[i].raw.granted_access);
    let block = spec_render_context(enriched[j]);
    lemma_block_in_render_contexts(enriched, j);
    let head = spec_dec_digits(a.handle_detections as nat) + " suspicious handles found.\n"@;
    let tail = spec_dec_digits(a.overlay_detections as nat) + " suspicious overlays found.\n"@
        + spec_render_windows(a.overlay_finder@.overlays);
    lemma_contains_block_extend_left(head, spec_render_contexts(enriched), block);
    lemma_contains_block_extend_right(head + spec_render_contexts(enriched), tail, block);
    assert((head + spec_render_contexts(enriched)) + tail =~= spec_report(a));
    assert(0 <= j < a.handle_manager@.len() && a.handle_manager@[j].raw == s[i].raw
        && a.handle_manager@[j].info is Some
        && a.handle_manager@[j].info->0.access_rights.contains("PROCESS_VM_READ"@)
        && a.handle_manager@[j].info->0.access_rights.contains("PROCESS_VM_WRITE"@)
        && contains_block(spec_report(a), spec_render_context(a.handle_manager@[j])));
}

/// A clean report has no leading count: it opens with its fixed sentence.
pub proof fn lemma_clean_report_has_no_count(a: Anticheat)
    requires
        a.handle_detections == 0,
        a.overlay_detections == 0,
    ensures
        parse_leading_count(spec_report(a)) is None,
{
    reveal_strlit("No suspicious handles or overlays detected.");
    assert(spec_report(a)[0] == 'N');
    assert(!is_dec_digit('N'));
}

} // verus!
