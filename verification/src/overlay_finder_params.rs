//! The configurable criteria an overlay window is scored against, and the
//! monotonicity of "satisfy all" matching.

use vstd::prelude::*;

use crate::window_info::{Point, Rect, ScreenMetrics, WindowInfo, WindowInfoView};
use crate::window_info::spec_percent_hundredths;

verus! {

/// Mathematical image of an `OverlayFinderParams`.
pub struct OverlayFinderParamsView {
    pub pid_owner: Option<u32>,
    pub wnd_class_name: Seq<char>,
    pub wnd_name: Seq<char>,
    pub pos: Rect,
    pub res: Point,
    pub percent_all_screens: u32,
    pub percent_main_screen: u32,
    pub style: u32,
    pub style_ex: u32,
    pub satisfy_all_criteria: bool,
}

/// Search criteria for overlay windows. Empty or zero criteria are ignored.
/// The two percentages are minimum screen shares in hundredths of a percent;
/// the style masks are satisfied by any common bit. With `satisfy_all_criteria`
/// set, any unsatisfied non-empty criterion rejects the window; without it,
/// any satisfied criterion accepts.
pub struct OverlayFinderParams {
    pub pid_owner: Option<u32>,
    pub wnd_class_name: String,
    pub wnd_name: String,
    pub pos: Rect,
    pub res: Point,
    pub percent_all_screens: u32,
    pub percent_main_screen: u32,
    pub style: u32,
    pub style_ex: u32,
    pub satisfy_all_criteria: bool,
}

impl View for OverlayFinderParams {
    type V = OverlayFinderParamsView;

    open spec fn view(&self) -> OverlayFinderParamsView {
        OverlayFinderParamsView {
            pid_owner: self.pid_owner,
            wnd_class_name: self.wnd_class_name@,
            wnd_name: self.wnd_name@,
            pos: self.pos,
            res: self.res,
            percent_all_screens: self.percent_all_screens,
            percent_main_screen: self.percent_main_screen,
            style: self.style,
            style_ex: self.style_ex,
            satisfy_all_criteria: self.satisfy_all_criteria,
        }
    }
}

/// The view of criteria that match nothing actively: everything empty.
pub open spec fn spec_default_params() -> OverlayFinderParamsView {
    OverlayFinderParamsView {
        pid_owner: None,
        wnd_class_name: Seq::empty(),
        wnd_name: Seq::empty(),
        pos: Rect { left: 0, top: 0, right: 0, bottom: 0 },
        res: Point { x: 0, y: 0 },
        percent_all_screens: 0,
        percent_main_screen: 0,
        style: 0,
        style_ex: 0,
        satisfy_all_criteria: false,
    }
}

impl Default for OverlayFinderParams {
    fn default() -> (r: Self)
        ensures
            r@ == spec_default_params(),
    {
        OverlayFinderParams {
            pid_owner: None,
            wnd_class_name: String::new(),
            wnd_name: String::new(),
            pos: Rect { left: 0, top: 0, right: 0, bottom: 0 },
            res: Point { x: 0, y: 0 },
            percent_all_screens: 0,
            percent_main_screen: 0,
            style: 0,
            style_ex: 0,
            satisfy_all_criteria: false,
        }
    }
}

impl Clone for OverlayFinderParams {
    fn clone(&self) -> (r: Self)
        ensures
            r@ == self@,
    {
        OverlayFinderParams {
            pid_owner: self.pid_owner,
            wnd_class_name: self.wnd_class_name.clone(),
            wnd_name: self.wnd_name.clone(),
            pos: self.pos,
            res: self.res,
            percent_all_screens: self.percent_all_screens,
            percent_main_screen: self.percent_main_screen,
            style: self.style,
            style_ex: self.style_ex,
            satisfy_all_criteria: self.satisfy_all_criteria,
        }
    }
}

/// How many criteria the bag can hold.
pub const CRITERIA_COUNT: u32 = 9;

/// Whether criterion `i` is configured at all. Empty or zero criteria are
/// inactive and never counted on either side.
pub open spec fn crit_active(p: OverlayFinderParamsView, i: int) -> bool {
    if i == 0 {
        p.pid_owner is Some
    } else if i == 1 {
        p.wnd_class_name.len() > 0
    } else if i == 2 {
        p.wnd_name.len() > 0
    } else if i == 3 {
        !(p.pos.left == 0 && p.pos.top == 0 && p.pos.right == 0 && p.pos.bottom == 0)
    } else if i == 4 {
        !(p.res.x == 0 && p.res.y == 0)
    } else if i == 5 {
        p.percent_all_screens != 0
    } else if i == 6 {
        p.percent_main_screen != 0
    } else if i == 7 {
        p.style != 0
    } else if i == 8 {
        p.style_ex != 0
    } else {
        false
    }
}

/// Whether the window meets criterion `i`. The style criteria accept on any
/// common bit; the percentage criteria compare the window's screen share
/// against the configured minimum.
pub open spec fn crit_met(
    p: OverlayFinderParamsView,
    w: WindowInfoView,
    m: ScreenMetrics,
    i: int,
) -> bool {
    if i == 0 {
        p.pid_owner == Some(w.pid)
    } else if i == 1 {
        p.wnd_class_name == w.class_name
    } else if i == 2 {
        p.wnd_name == w.title
    } else if i == 3 {
        p.pos == w.position
    } else if i == 4 {
        p.res == w.size
    } else if i == 5 {
        spec_percent_hundredths(w.size, m.virtual_desktop) >= p.percent_all_screens
    } else if i == 6 {
        spec_percent_hundredths(w.size, m.primary) >= p.percent_main_screen
    } else if i == 7 {
        p.style & w.style != 0
    } else if i == 8 {
        p.style_ex & w.style_ex != 0
    } else {
        false
    }
}

/// How many of the first `k` criteria are active and met.
pub open spec fn count_satisfied_upto(
    p: OverlayFinderParamsView,
    w: WindowInfoView,
    m: ScreenMetrics,
    k: int,
) -> int
    decreases k,
{
    if k <= 0 {
        0
    } else {
        count_satisfied_upto(p, w, m, k - 1) + if crit_active(p, k - 1) && crit_met(
            p,
            w,
            m,
            k - 1,
        ) {
            1int
        } else {
            0int
        }
    }
}

/// How many of the first `k` criteria are active and not met.
pub open spec fn count_unsatisfied_upto(
    p: OverlayFinderParamsView,
    w: WindowInfoView,
    m: ScreenMetrics,
    k: int,
) -> int
    decreases k,
{
    if k <= 0 {
        0
    } else {
        count_unsatisfied_upto(p, w, m, k - 1) + if crit_active(p, k - 1) && !crit_met(
            p,
            w,
            m,
            k - 1,
        ) {
            1int
        } else {
            0int
        }
    }
}

pub open spec fn count_satisfied(
    p: OverlayFinderParamsView,
    w: WindowInfoView,
    m: ScreenMetrics,
) -> int {
    count_satisfied_upto(p, w, m, CRITERIA_COUNT as int)
}

pub open spec fn count_unsatisfied(
    p: OverlayFinderParamsView,
    w: WindowInfoView,
    m: ScreenMetrics,
) -> int {
    count_unsatisfied_upto(p, w, m, CRITERIA_COUNT as int)
}

/// Whether the window is accepted: at least one criterion is satisfied, and,
/// under "satisfy all", none is unsatisfied.
pub open spec fn accepts(p: OverlayFinderParamsView, w: WindowInfoView, m: ScreenMetrics) -> bool {
    count_satisfied(p, w, m) > 0 && !(p.satisfy_all_criteria && count_unsatisfied(p, w, m) > 0)
}

impl OverlayFinderParams {
    /// Whether criterion `i` is configured at all.
    fn criterion_active(&self, i: u32) -> (r: bool)
        ensures
            r == crit_active(self@, i as int),
    {
        match i {
            0 => self.pid_owner.is_some(),
            1 => !self.wnd_class_name.as_str().is_empty(),
            2 => !self.wnd_name.as_str().is_empty(),
            3 => !(self.pos.left == 0 && self.pos.top == 0 && self.pos.right == 0 && self.pos.bottom
                == 0),
            4 => !(self.res.x == 0 && self.res.y == 0),
            5 => self.percent_all_screens != 0,
            6 => self.percent_main_screen != 0,
            7 => self.style != 0,
            8 => self.style_ex != 0,
            _ => false,
        }
    }

    /// Whether the window meets criterion `i`.
    fn criterion_met(&self, info: &WindowInfo, metrics: &ScreenMetrics, i: u32) -> (r: bool)
        ensures
            r == crit_met(self@, info@, *metrics, i as int),
    {
        match i {
            0 => match self.pid_owner {
                Some(pid) => pid == info.pid,
                None => false,
            },
            1 => self.wnd_class_name == info.class_name,
            2 => self.wnd_name == info.title,
            3 => self.pos == info.position,
            4 => self.res == info.size,
            5 => {
                let (percent_all, _) = info.get_screen_percentages(metrics);
                percent_all >= self.percent_all_screens as u128
            },
            6 => {
                let (_, percent_main) = info.get_screen_percentages(metrics);
                percent_main >= self.percent_main_screen as u128
            },
            7 => self.style & info.style != 0,
            8 => self.style_ex & info.style_ex != 0,
            _ => false,
        }
    }

    /// Scores the window against the criteria: how many are satisfied and
    /// how many are unsatisfied, inactive criteria counted on neither side.
    pub fn matches_criteria(&self, info: &WindowInfo, metrics: &ScreenMetrics) -> (r: (u8, u8))
        ensures
            r.0 == count_satisfied(self@, info@, *metrics),
            r.1 == count_unsatisfied(self@, info@, *metrics),
    {
        let mut satisfied: u8 = 0;
        let mut unsatisfied: u8 = 0;
        let mut i: u32 = 0;
        while i < CRITERIA_COUNT
            invariant
                i <= CRITERIA_COUNT,
                satisfied as int == count_satisfied_upto(self@, info@, *metrics, i as int),
                satisfied as int <= i as int,
                unsatisfied as int == count_unsatisfied_upto(self@, info@, *metrics, i as int),
                unsatisfied as int <= i as int,
            decreases CRITERIA_COUNT - i,
        {
            if self.criterion_active(i) {
                if self.criterion_met(info, metrics, i) {
                    satisfied = satisfied + 1;
                } else {
                    unsatisfied = unsatisfied + 1;
                }
            }
            i = i + 1;
        }
        (satisfied, unsatisfied)
    }
}

/// The counts never go below zero.
proof fn lemma_counts_nonneg(
    p: OverlayFinderParamsView,
    w: WindowInfoView,
    m: ScreenMetrics,
    k: int,
)
    ensures
        count_satisfied_upto(p, w, m, k) >= 0,
        count_unsatisfied_upto(p, w, m, k) >= 0,
    decreases k,
{
    if k > 0 {
        lemma_counts_nonneg(p, w, m, k - 1);
    }
}

/// No criterion is unsatisfied exactly when every active one is met.
proof fn lemma_unsatisfied_zero_iff_all_met(
    p: OverlayFinderParamsView,
    w: WindowInfoView,
    m: ScreenMetrics,
    k: int,
)
    ensures
        count_unsatisfied_upto(p, w, m, k) == 0 <==> (forall|i: int|
            0 <= i < k && crit_active(p, i) ==> crit_met(p, w, m, i)),
    decreases k,
{
    if k > 0 {
        lemma_unsatisfied_zero_iff_all_met(p, w, m, k - 1);
        lemma_counts_nonneg(p, w, m, k - 1);
    }
}

/// One active, met criterion makes the satisfied count positive.
proof fn lemma_satisfied_positive(
    p: OverlayFinderParamsView,
    w: WindowInfoView,
    m: ScreenMetrics,
    k: int,
    i: int,
)
    requires
        0 <= i < k,
        crit_active(p, i),
        crit_met(p, w, m, i),
    ensures
        count_satisfied_upto(p, w, m, k) >= 1,
    decreases k,
{
    lemma_counts_nonneg(p, w, m, k - 1);
    if i < k - 1 {
        lemma_satisfied_positive(p, w, m, k - 1, i);
    }
}

/// `wide` holds every criterion `narrow` holds, with the same setting, and
/// possibly more.
pub open spec fn criteria_extend(
    narrow: OverlayFinderParamsView,
    wide: OverlayFinderParamsView,
) -> bool {
    &&& forall|i: int|
        0 <= i < CRITERIA_COUNT as int && crit_active(narrow, i) ==> crit_active(wide, i)
    &&& (crit_active(narrow, 0) ==> wide.pid_owner == narrow.pid_owner)
    &&& (crit_active(narrow, 1) ==> wide.wnd_class_name == narrow.wnd_class_name)
    &&& (crit_active(narrow, 2) ==> wide.wnd_name == narrow.wnd_name)
    &&& (crit_active(narrow, 3) ==> wide.pos == narrow.pos)
    &&& (crit_active(narrow, 4) ==> wide.res == narrow.res)
    &&& (crit_active(narrow, 5) ==> wide.percent_all_screens == narrow.percent_all_screens)
    &&& (crit_active(narrow, 6) ==> wide.percent_main_screen == narrow.percent_main_screen)
    &&& (crit_active(narrow, 7) ==> wide.style == narrow.style)
    &&& (crit_active(narrow, 8) ==> wide.style_ex == narrow.style_ex)
}

/// Matching with "satisfy all" is monotone: a window the wider criteria bag
/// accepts, the narrower one accepts too, so adding a criterion can only
/// remove windows from the result set. The narrower bag must hold at least
/// one criterion: a bag with none accepts nothing, whatever the window.
pub proof fn lemma_satisfy_all_monotone(
    narrow: OverlayFinderParamsView,
    wide: OverlayFinderParamsView,
    w: WindowInfoView,
    m: ScreenMetrics,
)
    requires
        narrow.satisfy_all_criteria,
        wide.satisfy_all_criteria,
        criteria_extend(narrow, wide),
        exists|i: int| 0 <= i < CRITERIA_COUNT as int && #[trigger] crit_active(narrow, i),
        accepts(wide, w, m),
    ensures
        accepts(narrow, w, m),
{
    let n = CRITERIA_COUNT as int;
    lemma_counts_nonneg(wide, w, m, n);
    assert(count_unsatisfied(wide, w, m) == 0);
    lemma_unsatisfied_zero_iff_all_met(wide, w, m, n);
    assert forall|i: int| 0 <= i < n && crit_active(narrow, i) implies crit_met(
        narrow,
        w,
        m,
        i,
    ) by {
        assert(crit_active(wide, i));
        assert(crit_met(wide, w, m, i));
    }
    lemma_unsatisfied_zero_iff_all_met(narrow, w, m, n);
    let i0 = choose|i: int| 0 <= i < n && #[trigger] crit_active(narrow, i);
    lemma_satisfied_positive(narrow, w, m, n, i0);
}

} // verus!
