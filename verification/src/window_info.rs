//! A snapshot of one top-level window's identity, the screen sizes overlay
//! percentages are measured against, and the window's report rendering.

use vstd::prelude::*;
use vstd::string::StringExecFns;

use crate::text::{
    i32_to_dec, spec_dec_digits, spec_dec_signed, spec_hex_literal, u32_to_hex, u64_to_dec,
};

verus! {

/// A window's bounding rectangle in screen coordinates.
#[derive(Clone, Copy, PartialEq, Eq, Structural, Debug)]
pub struct Rect {
    pub left: i32,
    pub top: i32,
    pub right: i32,
    pub bottom: i32,
}

/// A point or a width-height pair.
#[derive(Clone, Copy, PartialEq, Eq, Structural, Debug)]
pub struct Point {
    pub x: i32,
    pub y: i32,
}

/// The screen sizes percentages are measured against: the primary monitor
/// and the bounding rectangle of the whole virtual desktop.
#[derive(Clone, Copy, PartialEq, Eq, Structural, Debug)]
pub struct ScreenMetrics {
    pub primary: Point,
    pub virtual_desktop: Point,
}

/// Mathematical image of a `WindowInfo`.
pub struct WindowInfoView {
    pub hwnd: u64,
    pub pid: u32,
    pub tid: u32,
    pub class_name: Seq<char>,
    pub title: Seq<char>,
    pub position: Rect,
    pub size: Point,
    pub style: u32,
    pub style_ex: u32,
}

/// A pure snapshot of one top-level window: identity, geometry and style
/// bits. The underlying window may be gone by the time the value is used.
pub struct WindowInfo {
    pub hwnd: u64,
    pub pid: u32,
    pub tid: u32,
    pub class_name: String,
    pub title: String,
    pub position: Rect,
    pub size: Point,
    pub style: u32,
    pub style_ex: u32,
}

impl View for WindowInfo {
    type V = WindowInfoView;

    open spec fn view(&self) -> WindowInfoView {
        WindowInfoView {
            hwnd: self.hwnd,
            pid: self.pid,
            tid: self.tid,
            class_name: self.class_name@,
            title: self.title@,
            position: self.position,
            size: self.size,
            style: self.style,
            style_ex: self.style_ex,
        }
    }
}

impl WindowInfoView {
    /// The size is the one the bounding rectangle spans.
    pub open spec fn wf(self) -> bool {
        self.size.x == self.position.right - self.position.left && self.size.y
            == self.position.bottom - self.position.top
    }
}

impl WindowInfo {
    /// Materialises a window snapshot; the size is derived from the bounding
    /// rectangle, never stored separately.
    pub fn new(
        hwnd: u64,
        pid: u32,
        tid: u32,
        class_name: String,
        title: String,
        position: Rect,
        style: u32,
        style_ex: u32,
    ) -> (r: WindowInfo)
        requires
            i32::MIN <= position.right - position.left <= i32::MAX,
            i32::MIN <= position.bottom - position.top <= i32::MAX,
        ensures
            r@ == (WindowInfoView {
                hwnd,
                pid,
                tid,
                class_name: class_name@,
                title: title@,
                position,
                size: Point {
                    x: (position.right - position.left) as i32,
                    y: (position.bottom - position.top) as i32,
                },
                style,
                style_ex,
            }),
            r@.wf(),
    {
        let size = Point { x: position.right - position.left, y: position.bottom - position.top };
        WindowInfo { hwnd, pid, tid, class_name, title, position, size, style, style_ex }
    }
}

impl Clone for WindowInfo {
    fn clone(&self) -> (r: Self)
        ensures
            r@ == self@,
    {
        WindowInfo {
            hwnd: self.hwnd,
            pid: self.pid,
            tid: self.tid,
            class_name: self.class_name.clone(),
            title: self.title.clone(),
            position: self.position,
            size: self.size,
            style: self.style,
            style_ex: self.style_ex,
        }
    }
}

/// A negative extent counts as zero area.
pub open spec fn clamped_extent(v: int) -> int {
    if v < 0 {
        0
    } else {
        v
    }
}

/// The share of a screen the size covers, in hundredths of a percent,
/// rounded down: the area ratio scaled by one hundred percent. A screen
/// without positive extent yields zero.
pub open spec fn spec_percent_hundredths(size: Point, screen: Point) -> int {
    if screen.x <= 0 || screen.y <= 0 {
        0
    } else {
        clamped_extent(size.x as int) * clamped_extent(size.y as int) * 10000 / (screen.x as int
            * screen.y as int)
    }
}

fn percent_hundredths(size: Point, screen: Point) -> (r: u128)
    ensures
        r == spec_percent_hundredths(size, screen),
{
    if screen.x <= 0 || screen.y <= 0 {
        0
    } else {
        let w: u128 = if size.x < 0 {
            0
        } else {
            size.x as u128
        };
        let h: u128 = if size.y < 0 {
            0
        } else {
            size.y as u128
        };
        let sw: u128 = screen.x as u128;
        let sh: u128 = screen.y as u128;
        proof {
            assert(w * h <= 0x7fffffff * 0x7fffffff) by (nonlinear_arith)
                requires
                    w <= 0x7fffffff && h <= 0x7fffffff,
            ;
            assert(1 <= sw * sh <= 0x7fffffff * 0x7fffffff) by (nonlinear_arith)
                requires
                    1 <= sw <= 0x7fffffff && 1 <= sh <= 0x7fffffff,
            ;
        }
        let area: u128 = w * h;
        let scaled: u128 = area * 10000;
        let screen_area: u128 = sw * sh;
        scaled / screen_area
    }
}

impl WindowInfo {
    /// The share of the virtual desktop and of the primary screen this
    /// window covers, both in hundredths of a percent, rounded down.
    pub fn get_screen_percentages(&self, metrics: &ScreenMetrics) -> (r: (u128, u128))
        ensures
            r.0 == spec_percent_hundredths(self@.size, metrics.virtual_desktop),
            r.1 == spec_percent_hundredths(self@.size, metrics.primary),
    {
        (
            percent_hundredths(self.size, metrics.virtual_desktop),
            percent_hundredths(self.size, metrics.primary),
        )
    }
}

/// The report block of one window snapshot.
pub open spec fn spec_render_window(w: WindowInfoView) -> Seq<char> {
    "Window Details:\n"@ + "Handle: "@ + spec_dec_digits(w.hwnd as nat) + "\n"@ + "  Title: "@
        + w.title + "\n"@ + "  Class Name: "@ + w.class_name + "\n"@ + "  Process ID: "@
        + spec_dec_digits(w.pid as nat) + "\n"@ + "  Thread ID: "@ + spec_dec_digits(w.tid as nat)
        + "\n"@ + "  Position: Left="@ + spec_dec_signed(w.position.left as int) + ", Top="@
        + spec_dec_signed(w.position.top as int) + ", Right="@ + spec_dec_signed(
        w.position.right as int,
    ) + ", Bottom="@ + spec_dec_signed(w.position.bottom as int) + "\n"@ + "  Size: "@
        + spec_dec_signed(w.size.x as int) + "x"@ + spec_dec_signed(w.size.y as int) + "\n"@
        + "  Style: "@ + spec_hex_literal(w.style as nat) + "\n"@ + "  Extended Style: "@
        + spec_hex_literal(w.style_ex as nat) + "\n"@
}

impl WindowInfo {
    /// Renders this window as its block of the scan report.
    pub fn render(&self) -> (r: String)
        ensures
            r@ == spec_render_window(self@),
    {
        let mut out = "Window Details:\n".to_owned();
        out.append("Handle: ");
        let hwnd_text = u64_to_dec(self.hwnd);
        out.append(hwnd_text.as_str());
        out.append("\n");
        out.append("  Title: ");
        out.append(self.title.as_str());
        out.append("\n");
        out.append("  Class Name: ");
        out.append(self.class_name.as_str());
        out.append("\n");
        out.append("  Process ID: ");
        let pid_text = u64_to_dec(self.pid as u64);
        out.append(pid_text.as_str());
        out.append("\n");
        out.append("  Thread ID: ");
        let tid_text = u64_to_dec(self.tid as u64);
        out.append(tid_text.as_str());
        out.append("\n");
        out.append("  Position: Left=");
        let left_text = i32_to_dec(self.position.left);
        out.append(left_text.as_str());
        out.append(", Top=");
        let top_text = i32_to_dec(self.position.top);
        out.append(top_text.as_str());
        out.append(", Right=");
        let right_text = i32_to_dec(self.position.right);
        out.append(right_text.as_str());
        out.append(", Bottom=");
        let bottom_text = i32_to_dec(self.position.bottom);
        out.append(bottom_text.as_str());
        out.append("\n");
        out.append("  Size: ");
        let sx_text = i32_to_dec(self.size.x);
        out.append(sx_text.as_str());
        out.append("x");
        let sy_text = i32_to_dec(self.size.y);
        out.append(sy_text.as_str());
        out.append("\n");
        out.append("  Style: ");
        let style_text = u32_to_hex(self.style);
        out.append(style_text.as_str());
        out.append("\n");
        out.append("  Extended Style: ");
        let style_ex_text = u32_to_hex(self.style_ex);
        out.append(style_ex_text.as_str());
        out.append("\n");
        out
    }
}

} // verus!
