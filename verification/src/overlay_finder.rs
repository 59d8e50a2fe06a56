//! The overlay finder: a criteria bag built up fluently, run once over a
//! window snapshot, keeping the windows the criteria accept.

use vstd::prelude::*;

use crate::overlay_finder_params::{
    accepts, criteria_extend, lemma_satisfy_all_monotone, spec_default_params, OverlayFinderParams,
    OverlayFinderParamsView, CRITERIA_COUNT,
};
use crate::overlay_finder_params::crit_active;
use crate::window_info::{Point, Rect, ScreenMetrics, WindowInfo, WindowInfoView};

verus! {

/// The mathematical images of a list of window snapshots.
pub open spec fn window_views(s: Seq<WindowInfo>) -> Seq<WindowInfoView> {
    s.map_values(|w: WindowInfo| w@)
}

/// The windows of a snapshot the criteria accept, in enumeration order.
pub open spec fn overlay_matches(
    p: OverlayFinderParamsView,
    ws: Seq<WindowInfoView>,
    m: ScreenMetrics,
) -> Seq<WindowInfoView> {
    ws.filter(|w: WindowInfoView| accepts(p, w, m))
}

/// The window handles the criteria accept, in enumeration order.
pub fn find_overlays(
    params: &OverlayFinderParams,
    windows: &Vec<WindowInfo>,
    metrics: &ScreenMetrics,
) -> (r: Vec<u64>)
    ensures
        r@ == overlay_matches(params@, window_views(windows@), *metrics).map_values(
            |w: WindowInfoView| w.hwnd,
        ),
{
    let matched = match_windows(params, windows, metrics);
    let mut r: Vec<u64> = Vec::new();
    let n = matched.len();
    let mut i: usize = 0;
    while i < n
        invariant
            i <= n,
            n == matched@.len(),
            r@.len() == i as int,
            forall|j: int| 0 <= j < i as int ==> r@[j] == #[trigger] matched@[j]@.hwnd,
            window_views(matched@) == overlay_matches(params@, window_views(windows@), *metrics),
        decreases n - i,
    {
        r.push(matched[i].hwnd);
        i = i + 1;
    }
    proof {
        assert(r@ =~= window_views(matched@).map_values(|w: WindowInfoView| w.hwnd));
    }
    r
}

/// Keeps the windows of the snapshot the criteria accept, in order.
fn match_windows(
    params: &OverlayFinderParams,
    windows: &Vec<WindowInfo>,
    metrics: &ScreenMetrics,
) -> (r: Vec<WindowInfo>)
    ensures
        window_views(r@) == overlay_matches(params@, window_views(windows@), *metrics),
{
    let ghost pred = |w: WindowInfoView| accepts(params@, w, *metrics);
    let mut matched: Vec<WindowInfo> = Vec::new();
    let n = windows.len();
    let mut i: usize = 0;
    proof {
        assert(window_views(matched@) =~= Seq::<WindowInfoView>::empty());
        assert(window_views(windows@.take(0)) =~= Seq::<WindowInfoView>::empty());
    }
    while i < n
        invariant
            i <= n,
            n == windows@.len(),
            pred == (|w: WindowInfoView| accepts(params@, w, *metrics)),
            window_views(matched@) == window_views(windows@.take(i as int)).filter(pred),
        decreases n - i,
    {
        let ghost old_matched = matched@;
        let (satisfied, unsatisfied) = params.matches_criteria(&windows[i], metrics);
        let accept = satisfied > 0 && !(params.satisfy_all_criteria && unsatisfied > 0);
        if accept {
            matched.push(windows[i].clone());
        }
        proof {
            let w = windows@[i as int]@;
            let prev = window_views(windows@.take(i as int));
            assert(windows@.take(i + 1) =~= windows@.take(i as int).push(windows@[i as int]));
            assert(window_views(windows@.take(i + 1)) =~= prev.push(w));
            prev.lemma_filter_push(w, pred);
            if accepts(params@, w, *metrics) {
                assert(window_views(matched@) =~= window_views(old_matched).push(w));
            }
        }
        i = i + 1;
    }
    proof {
        assert(windows@.take(n as int) =~= windows@);
    }
    matched
}

/// Mathematical image of an `OverlayFinder`.
pub struct OverlayFinderView {
    pub params: OverlayFinderParamsView,
    pub overlays: Seq<WindowInfoView>,
}

/// The overlay-scanning half of the scanner: the criteria to score windows
/// against, and the windows the last scan accepted.
pub struct OverlayFinder {
    pub params: OverlayFinderParams,
    pub overlays: Vec<WindowInfo>,
}

impl View for OverlayFinder {
    type V = OverlayFinderView;

    open spec fn view(&self) -> OverlayFinderView {
        OverlayFinderView { params: self.params@, overlays: window_views(self.overlays@) }
    }
}

impl Default for OverlayFinder {
    fn default() -> (r: Self)
        ensures
            r@.params == spec_default_params(),
            r@.overlays.len() == 0,
    {
        let r = OverlayFinder { params: OverlayFinderParams::default(), overlays: Vec::new() };
        proof {
            assert(window_views(r.overlays@) =~= Seq::<WindowInfoView>::empty());
        }
        r
    }
}

impl OverlayFinder {
    /// A finder with no criteria configured and no scan run yet.
    pub fn new() -> (r: Self)
        ensures
            r@.params == spec_default_params(),
            r@.overlays.len() == 0,
    {
        OverlayFinder::default()
    }

    /// Requires the window to be owned by this process.
    pub fn with_pid_owner(self, pid: u32) -> (r: Self)
        ensures
            r@.params == (OverlayFinderParamsView { pid_owner: Some(pid), ..self@.params }),
            r@.overlays == self@.overlays,
    {
        OverlayFinder {
            params: OverlayFinderParams { pid_owner: Some(pid), ..self.params },
            overlays: self.overlays,
        }
    }

    /// Requires this window class name.
    pub fn with_window_class(self, class_name: String) -> (r: Self)
        ensures
            r@.params == (OverlayFinderParamsView {
                wnd_class_name: class_name@,
                ..self@.params
            }),
            r@.overlays == self@.overlays,
    {
        OverlayFinder {
            params: OverlayFinderParams { wnd_class_name: class_name, ..self.params },
            overlays: self.overlays,
        }
    }

    /// Requires this window title.
    pub fn with_window_name(self, name: String) -> (r: Self)
        ensures
            r@.params == (OverlayFinderParamsView { wnd_name: name@, ..self@.params }),
            r@.overlays == self@.overlays,
    {
        OverlayFinder {
            params: OverlayFinderParams { wnd_name: name, ..self.params },
            overlays: self.overlays,
        }
    }

    /// Requires this exact bounding rectangle.
    pub fn with_position(self, rect: Rect) -> (r: Self)
        ensures
            r@.params == (OverlayFinderParamsView { pos: rect, ..self@.params }),
            r@.overlays == self@.overlays,
    {
        OverlayFinder {
            params: OverlayFinderParams { pos: rect, ..self.params },
            overlays: self.overlays,
        }
    }

    /// Requires this exact size.
    pub fn with_size(self, size: Point) -> (r: Self)
        ensures
            r@.params == (OverlayFinderParamsView { res: size, ..self@.params }),
            r@.overlays == self@.overlays,
    {
        OverlayFinder {
            params: OverlayFinderParams { res: size, ..self.params },
            overlays: self.overlays,
        }
    }

    /// Requires some of these style bits.
    pub fn with_style(self, style: u32) -> (r: Self)
        ensures
            r@.params == (OverlayFinderParamsView { style, ..self@.params }),
            r@.overlays == self@.overlays,
    {
        OverlayFinder {
            params: OverlayFinderParams { style, ..self.params },
            overlays: self.overlays,
        }
    }

    /// Requires some of these extended style bits.
    pub fn with_style_ex(self, style_ex: u32) -> (r: Self)
        ensures
            r@.params == (OverlayFinderParamsView { style_ex, ..self@.params }),
            r@.overlays == self@.overlays,
    {
        OverlayFinder {
            params: OverlayFinderParams { style_ex, ..self.params },
            overlays: self.overlays,
        }
    }

    /// Requires this minimum share of the virtual desktop, in hundredths of
    /// a percent.
    pub fn with_percent_all_screens(self, percent: u32) -> (r: Self)
        ensures
            r@.params == (OverlayFinderParamsView {
                percent_all_screens: percent,
                ..self@.params
            }),
            r@.overlays == self@.overlays,
    {
        OverlayFinder {
            params: OverlayFinderParams { percent_all_screens: percent, ..self.params },
            overlays: self.overlays,
        }
    }

    /// Requires this minimum share of the primary screen, in hundredths of
    /// a percent.
    pub fn with_percent_main_screen(self, percent: u32) -> (r: Self)
        ensures
            r@.params == (OverlayFinderParamsView {
                percent_main_screen: percent,
                ..self@.params
            }),
            r@.overlays == self@.overlays,
    {
        OverlayFinder {
            params: OverlayFinderParams { percent_main_screen: percent, ..self.params },
            overlays: self.overlays,
        }
    }

    /// Chooses whether every configured criterion must be met, or any one
    /// satisfied criterion accepts.
    pub fn satisfy_all_criteria(self, satisfy_all: bool) -> (r: Self)
        ensures
            r@.params == (OverlayFinderParamsView {
                satisfy_all_criteria: satisfy_all,
                ..self@.params
            }),
            r@.overlays == self@.overlays,
    {
        OverlayFinder {
            params: OverlayFinderParams { satisfy_all_criteria: satisfy_all, ..self.params },
            overlays: self.overlays,
        }
    }

    /// Scores the window snapshot once, records the accepted windows and
    /// hands them back.
    pub fn find(&mut self, windows: &Vec<WindowInfo>, metrics: &ScreenMetrics) -> (r: Vec<
        WindowInfo,
    >)
        ensures
            final(self)@.params == old(self)@.params,
            final(self)@.overlays == overlay_matches(
                old(self)@.params,
                window_views(windows@),
                *metrics,
            ),
            window_views(r@) == final(self)@.overlays,
    {
        let matched = match_windows(&self.params, windows, metrics);
        let result = clone_windows(&matched);
        self.overlays = matched;
        result
    }
}

/// Clones a window list, keeping its contents.
fn clone_windows(v: &Vec<WindowInfo>) -> (r: Vec<WindowInfo>)
    ensures
        window_views(r@) == window_views(v@),
{
    let mut r: Vec<WindowInfo> = Vec::new();
    let n = v.len();
    let mut i: usize = 0;
    while i < n
        invariant
            i <= n,
            n == v@.len(),
            r@.len() == i as int,
            forall|j: int| 0 <= j < i as int ==> r@[j]@ == #[trigger] v@[j]@,
        decreases n - i,
    {
        r.push(v[i].clone());
        i = i + 1;
    }
    proof {
        assert(window_views(r@) =~= window_views(v@));
    }
    r
}

/// Adding a criterion under "satisfy all" can only remove windows from the
/// result set: every window the wider bag keeps, the narrower bag keeps too.
pub proof fn lemma_overlay_matches_monotone(
    narrow: OverlayFinderParamsView,
    wide: OverlayFinderParamsView,
    ws: Seq<WindowInfoView>,
    m: ScreenMetrics,
)
    requires
        narrow.satisfy_all_criteria,
        wide.satisfy_all_criteria,
        criteria_extend(narrow, wide),
        exists|i: int| 0 <= i < CRITERIA_COUNT as int && #[trigger] crit_active(narrow, i),
    ensures
        forall|j: int|
            0 <= j < overlay_matches(wide, ws, m).len() ==> overlay_matches(
                narrow,
                ws,
                m,
            ).contains(#[trigger] overlay_matches(wide, ws, m)[j]),
{
    broadcast use Seq::lemma_filter_pred;

    let kept = overlay_matches(wide, ws, m);
    assert forall|j: int| 0 <= j < kept.len() implies overlay_matches(narrow, ws, m).contains(
        #[trigger] kept[j],
    ) by {
        let e = kept[j];
        assert(accepts(wide, e, m));
        assert(kept.contains(e));
        ws.lemma_filter_contains_rev(|w: WindowInfoView| accepts(wide, w, m), e);
        let i = choose|i: int| 0 <= i < ws.len() && ws[i] == e;
        lemma_satisfy_all_monotone(narrow, wide, e, m);
        assert(accepts(narrow, ws[i], m));
        ws.lemma_filter_contains(|w: WindowInfoView| accepts(narrow, w, m), i);
    }
}

} // verus!
