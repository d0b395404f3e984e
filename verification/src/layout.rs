//! Where the gauge's windows go on screen: the panel below the top bar, saved positions, default
//! positions, dragging, and the window sizes of the desktop gauge.
use vstd::prelude::*;

verus! {

/// A screen rectangle in physical pixels; `right` and `bottom` lie just outside it.
#[derive(Debug, Clone, Copy, PartialEq, Eq, Structural)]
pub struct Rect {
    pub left: i32,
    pub top: i32,
    pub right: i32,
    pub bottom: i32,
}

/// Rust's integer division by two, which rounds towards zero.
pub open spec fn half(v: int) -> int {
    if v >= 0 {
        v / 2
    } else {
        -((-v) / 2)
    }
}

/// `v.clamp(lo, hi)` for `lo <= hi`.
pub open spec fn clamped(v: int, lo: int, hi: int) -> int {
    if v < lo {
        lo
    } else if v > hi {
        hi
    } else {
        v
    }
}

/// The larger of two integers.
pub open spec fn larger(a: int, b: int) -> int {
    if a >= b {
        a
    } else {
        b
    }
}

/// An integer that fits in `i32`.
pub open spec fn fits_i32(v: int) -> bool {
    i32::MIN <= v <= i32::MAX
}

fn half_i32(v: i32) -> (res: i32)
    ensures
        res == half(v as int),
{
    v / 2
}

/// The panel's width and height, at least one pixel each.
pub open spec fn panel_extent(panel: Rect) -> (int, int) {
    (larger(panel.right - panel.left, 1), larger(panel.bottom - panel.top, 1))
}

/// The arithmetic of `panel_position` stays within `i32`.
pub open spec fn panel_position_fits(anchor: Rect, work: Rect, panel: Rect) -> bool {
    let (w, h) = panel_extent(panel);
    &&& fits_i32(panel.right - panel.left)
    &&& fits_i32(panel.bottom - panel.top)
    &&& fits_i32(anchor.right - anchor.left)
    &&& fits_i32(anchor.right - anchor.left - w)
    &&& fits_i32(anchor.left + half(anchor.right - anchor.left - w))
    &&& fits_i32(work.right - w)
    &&& fits_i32(anchor.bottom - 1)
    &&& fits_i32(anchor.bottom - 1 + h)
    &&& fits_i32(work.bottom - h)
}

/// Where the panel goes below the top bar `anchor` inside the work area `work`: centred under
/// the anchor and kept inside the work area horizontally; just below the anchor (overlapping its
/// last row) when it fits above the bottom of the work area, else as low as fits, but not above
/// the work area's top.
pub open spec fn panel_position(anchor: Rect, work: Rect, panel: Rect) -> (int, int) {
    let (w, h) = panel_extent(panel);
    let centered = anchor.left + half(anchor.right - anchor.left - w);
    let x = clamped(centered, work.left as int, larger(work.right - w, work.left as int));
    let below = anchor.bottom - 1;
    let y = if below + h <= work.bottom {
        below
    } else {
        larger(work.bottom - h, work.top as int)
    };
    (x, y)
}

/// The panel never starts left of the work area, nor right of the last place where it fits
/// (unless it is wider than the work area), and it either touches the anchor or does not start
/// above the work area.
pub proof fn lemma_panel_inside_work_area(anchor: Rect, work: Rect, panel: Rect)
    ensures
        ({
            let (x, y) = panel_position(anchor, work, panel);
            let (w, h) = panel_extent(panel);
            &&& work.left <= x <= larger(work.right - w, work.left as int)
            &&& (y == anchor.bottom - 1 && y + h <= work.bottom) || work.top <= y
        }),
{
}

/// Places the panel below the top bar (see `panel_position`).
pub fn clamp_panel_position(anchor: Rect, work: Rect, panel: Rect) -> (res: (i32, i32))
    requires
        panel_position_fits(anchor, work, panel),
    ensures
        (res.0 as int, res.1 as int) == panel_position(anchor, work, panel),
{
    let raw_width = panel.right - panel.left;
    let panel_width = if raw_width > 1 {
        raw_width
    } else {
        1
    };
    let raw_height = panel.bottom - panel.top;
    let panel_height = if raw_height > 1 {
        raw_height
    } else {
        1
    };
    let centered_x = anchor.left + half_i32(anchor.right - anchor.left - panel_width);
    let far = work.right - panel_width;
    let hi = if far > work.left {
        far
    } else {
        work.left
    };
    let x = if centered_x < work.left {
        work.left
    } else if centered_x > hi {
        hi
    } else {
        centered_x
    };
    let below = anchor.bottom - 1;
    let y = if below + panel_height <= work.bottom {
        below
    } else {
        let low = work.bottom - panel_height;
        if low > work.top {
            low
        } else {
            work.top
        }
    };
    (x, y)
}

/// The coordinate that Windows gives a minimized or hidden window.
pub const HIDDEN_COORDINATE: i32 = -32_000;

/// The virtual screen: all monitors together.
#[derive(Debug, Clone, Copy, PartialEq, Eq, Structural)]
pub struct VirtualScreen {
    pub left: i32,
    pub top: i32,
    pub width: i32,
    pub height: i32,
}

/// A saved position is usable: not the hidden-window coordinate, and on the virtual screen,
/// allowing the window to stick out up to 64 pixels to the left and top.
pub open spec fn saved_position_ok(x: int, y: int, screen: VirtualScreen) -> bool {
    x != HIDDEN_COORDINATE && y != HIDDEN_COORDINATE && x >= screen.left - 64 && x < screen.left
        + screen.width && y >= screen.top - 64 && y < screen.top + screen.height
}

/// Whether a saved position can be restored (see `saved_position_ok`).
pub fn valid_saved_position(x: i32, y: i32, screen: VirtualScreen) -> (res: bool)
    requires
        fits_i32(screen.left - 64),
        fits_i32(screen.top - 64),
        fits_i32(screen.left + screen.width),
        fits_i32(screen.top + screen.height),
    ensures
        res == saved_position_ok(x as int, y as int, screen),
{
    if x == HIDDEN_COORDINATE || y == HIDDEN_COORDINATE {
        return false;
    }
    let right = screen.left + screen.width;
    let bottom = screen.top + screen.height;
    x >= screen.left - 64 && x < right && y >= screen.top - 64 && y < bottom
}

/// Where the top bar starts horizontally: its saved position when that can be restored (checked
/// at height zero), else the default.
pub fn initial_top_x(saved: Option<i32>, default_x: i32, screen: VirtualScreen) -> (res: i32)
    requires
        fits_i32(screen.left - 64),
        fits_i32(screen.top - 64),
        fits_i32(screen.left + screen.width),
        fits_i32(screen.top + screen.height),
    ensures
        res == match saved {
            Some(x) => if saved_position_ok(x as int, 0, screen) {
                x
            } else {
                default_x
            },
            None => default_x,
        },
{
    match saved {
        Some(x) => if valid_saved_position(x, 0, screen) {
            x
        } else {
            default_x
        },
        None => default_x,
    }
}

/// The top bar's position to save after it was seen at `x` (when visible and placed): a
/// restorable position that differs from the saved one; `None` when nothing is to be saved.
pub fn top_position_to_save(visible: bool, x: Option<i32>, saved: Option<i32>, screen: VirtualScreen) -> (res:
    Option<i32>)
    requires
        fits_i32(screen.left - 64),
        fits_i32(screen.top - 64),
        fits_i32(screen.left + screen.width),
        fits_i32(screen.top + screen.height),
    ensures
        res == (match x {
            Some(p) => if visible && saved_position_ok(p as int, 0, screen) && saved != Some(p) {
                Some(p)
            } else {
                None::<i32>
            },
            None => None,
        }),
{
    if !visible {
        return None;
    }
    match x {
        Some(p) => if valid_saved_position(p, 0, screen) && saved != Some(p) {
            Some(p)
        } else {
            None
        },
        None => None,
    }
}

/// Rust's `a * b / c` for `c > 0`, the division rounding towards zero.
pub open spec fn scaled(v: int, dpi: int) -> int {
    let p = v * dpi;
    if p >= 0 {
        p / 96
    } else {
        -((-p) / 96)
    }
}

/// The system resolution in dots per inch, at least the standard 96.
pub open spec fn effective_dpi(dpi: u32) -> int {
    if dpi < 96 {
        96
    } else {
        dpi as int
    }
}

/// A size in logical pixels scaled to physical pixels at the system resolution `dpi`.
pub fn scaled_size(width: i32, height: i32, dpi: u32) -> (res: (i32, i32))
    requires
        dpi <= i32::MAX,
        fits_i32(width * effective_dpi(dpi)),
        fits_i32(height * effective_dpi(dpi)),
    ensures
        res.0 as int == scaled(width as int, effective_dpi(dpi)),
        res.1 as int == scaled(height as int, effective_dpi(dpi)),
{
    let d: i32 = if dpi < 96 {
        96
    } else {
        dpi as i32
    };
    let pw = width * d;
    let ph = height * d;
    let w = pw / 96;
    let h = ph / 96;
    (w, h)
}

/// A window of the given size centred on a screen of the given size.
pub fn default_main_position(width: i32, height: i32, screen_width: i32, screen_height: i32) -> (res:
    (i32, i32))
    requires
        fits_i32(screen_width - width),
        fits_i32(screen_height - height),
    ensures
        res.0 as int == half(screen_width - width),
        res.1 as int == half(screen_height - height),
{
    (half_i32(screen_width - width), half_i32(screen_height - height))
}

/// The top bar centred along the top edge of a screen of the given width.
pub fn default_top_position(width: i32, screen_width: i32) -> (res: (i32, i32))
    requires
        fits_i32(screen_width - width),
    ensures
        res.0 as int == half(screen_width - width),
        res.1 == 0,
{
    (half_i32(screen_width - width), 0)
}

/// Where a window dragged sideways goes: its start plus the distance moved, kept between the
/// virtual screen's left edge and the last position where the whole width fits (never left of
/// the edge).
pub open spec fn dragged_x(origin: int, moved_to: int, moved_from: int, left: int, right: int, width: int) -> int {
    clamped(origin + moved_to - moved_from, left, larger(right - width, left))
}

/// The new left edge of a window being dragged (see `dragged_x`).
pub fn drag_x(origin: i32, moved_to: i32, moved_from: i32, left: i32, right: i32, width: i32) -> (res:
    i32)
    requires
        fits_i32(origin + moved_to),
        fits_i32(origin + moved_to - moved_from),
        fits_i32(right - width),
    ensures
        res as int == dragged_x(
            origin as int,
            moved_to as int,
            moved_from as int,
            left as int,
            right as int,
            width as int,
        ),
{
    let x = origin + moved_to - moved_from;
    let far = right - width;
    let hi = if far > left {
        far
    } else {
        left
    };
    if x < left {
        left
    } else if x > hi {
        hi
    } else {
        x
    }
}

/// A dragged window's position stays on the virtual screen.
pub proof fn lemma_drag_stays_on_screen(
    origin: int,
    moved_to: int,
    moved_from: int,
    left: int,
    right: int,
    width: int,
)
    ensures
        left <= dragged_x(origin, moved_to, moved_from, left, right, width),
        dragged_x(origin, moved_to, moved_from, left, right, width) <= larger(right - width, left),
{
}

/// The extended window style that keeps a window off the taskbar: the tool-window bit set and the
/// app-window bit cleared.
pub fn tool_window_style(style: u32) -> (res: u32)
    ensures
        res == (style | 0x80u32) & !0x40000u32,
{
    (style | 0x80u32) & !0x40000u32
}

/// The style change that hides a window from the taskbar, or none when the style already does.
pub fn taskbar_style_change(current: isize) -> (res: Option<isize>)
    ensures
        res == if current == ((current & !0x40000isize) | 0x80isize) {
            None
        } else {
            Some((current & !0x40000isize) | 0x80isize)
        },
{
    let next = (current & !0x40000isize) | 0x80isize;
    if current == next {
        None
    } else {
        Some(next)
    }
}

/// The next step of the burn-in shift: the steps alternate between one pixel left and one pixel
/// right.
pub fn next_oled_offset(step: usize) -> (res: (usize, i32))
    requires
        step < usize::MAX,
    ensures
        res.0 == (step + 1) % 2,
        res.1 == if res.0 == 0 {
            -1i32
        } else {
            1i32
        },
{
    let next = (step + 1) % 2;
    let dx: i32 = if next == 0 {
        -1
    } else {
        1
    };
    (next, dx)
}

/// Whether a coordinate is one that Windows gives hidden windows (at or beyond `-32000`).
pub fn is_hidden_window_coordinate(position: i32) -> (res: bool)
    ensures
        res == (position <= HIDDEN_COORDINATE),
{
    position <= HIDDEN_COORDINATE
}

/// Whether a position is one that Windows gives hidden windows, in either coordinate.
pub fn is_hidden_window_position(x: i32, y: i32) -> (res: bool)
    ensures
        res == (x <= HIDDEN_COORDINATE || y <= HIDDEN_COORDINATE),
{
    is_hidden_window_coordinate(x) || is_hidden_window_coordinate(y)
}

/// The size of the desktop window, collapsed or expanded, in logical pixels.
pub fn main_window_size(expanded: bool) -> (res: (u32, u32))
    ensures
        res == if expanded {
            (460u32, 640u32)
        } else {
            (430u32, 104u32)
        },
{
    if expanded {
        (460, 640)
    } else {
        (430, 104)
    }
}

/// The size of the top bar, taller while its menu is open, in logical pixels.
pub fn top_window_size(menu_open: bool) -> (res: (u32, u32))
    ensures
        res == (168u32, if menu_open {
            108u32
        } else {
            26u32
        }),
{
    (168, if menu_open {
        108
    } else {
        26
    })
}

/// A monitor: its origin and size in physical pixels, and the top bar's width in its pixels.
#[derive(Debug, Clone, Copy, PartialEq, Eq, Structural)]
pub struct MonitorArea {
    pub x: i32,
    pub y: i32,
    pub width: u32,
    pub height: u32,
    pub top_width: u32,
}

/// `a.saturating_sub(b)` on `u32`.
pub open spec fn sat_sub(a: u32, b: u32) -> int {
    if a >= b {
        a - b
    } else {
        0
    }
}

/// Where the desktop window opens: at the saved position when both coordinates were saved, else
/// centred horizontally on the monitor, 28 pixels below its top; nowhere without a monitor.
pub open spec fn main_window_place(
    saved_x: Option<i32>,
    saved_y: Option<i32>,
    monitor: Option<MonitorArea>,
    width: u32,
) -> Option<(int, int)> {
    match (saved_x, saved_y) {
        (Some(x), Some(y)) => Some((x as int, y as int)),
        _ => match monitor {
            Some(m) => Some((m.x + sat_sub(m.width, width) / 2, m.y + 28)),
            None => None,
        },
    }
}

/// Where the desktop window opens (see `main_window_place`); `width` is its width in the
/// monitor's pixels.
pub fn main_window_position(
    saved_x: Option<i32>,
    saved_y: Option<i32>,
    monitor: Option<MonitorArea>,
    width: u32,
) -> (res: Option<(i32, i32)>)
    requires
        monitor matches Some(m) ==> fits_i32(m.x + sat_sub(m.width, width) / 2) && fits_i32(
            m.y + 28,
        ),
    ensures
        match main_window_place(saved_x, saved_y, monitor, width) {
            Some((x, y)) => res matches Some(r) && r.0 as int == x && r.1 as int == y,
            None => res.is_none(),
        },
{
    if let (Some(x), Some(y)) = (saved_x, saved_y) {
        return Some((x, y));
    }
    match monitor {
        Some(m) => {
            let spare = m.width.saturating_sub(width);
            let offset = (spare / 2) as i32;
            Some((m.x + offset, m.y + 28))
        },
        None => None,
    }
}

/// A monitor holds the horizontal position `x`.
pub open spec fn monitor_holds(m: MonitorArea, x: int) -> bool {
    m.x <= x && x < m.x + m.width
}

/// The first monitor from index `i` on that holds `x`.
pub open spec fn monitor_holding_from(monitors: Seq<MonitorArea>, x: int, i: int) -> Option<MonitorArea>
    decreases monitors.len() - i,
{
    if i < 0 || i >= monitors.len() {
        None
    } else if monitor_holds(monitors[i], x) {
        Some(monitors[i])
    } else {
        monitor_holding_from(monitors, x, i + 1)
    }
}

/// Where the top bar opens: on the monitor that holds the saved position (not a hidden-window
/// one), else on the current monitor, else on the first; at the saved position when the whole
/// bar fits there, else centred; along the monitor's top edge.
pub open spec fn top_window_place(
    saved_x: Option<i32>,
    monitors: Seq<MonitorArea>,
    current: Option<MonitorArea>,
) -> Option<(int, int)> {
    let saved = match saved_x {
        Some(x) if x > HIDDEN_COORDINATE => Some(x as int),
        _ => None,
    };
    let held = match saved {
        Some(x) => monitor_holding_from(monitors, x, 0),
        None => None,
    };
    let chosen = match held {
        Some(m) => Some(m),
        None => match current {
            Some(m) => Some(m),
            None => if monitors.len() > 0 {
                Some(monitors[0])
            } else {
                None
            },
        },
    };
    match chosen {
        None => None,
        Some(m) => {
            let spare = sat_sub(m.width, m.top_width);
            let min_x = m.x as int;
            let max_x = m.x + spare;
            let x = match saved {
                Some(s) if min_x <= s && s <= max_x => s,
                _ => min_x + spare / 2,
            };
            Some((x, m.y as int))
        },
    }
}

/// Monitors whose right edges fit in `i32`.
pub open spec fn monitors_fit(monitors: Seq<MonitorArea>) -> bool {
    forall|i: int| 0 <= i < monitors.len() ==> fits_i32(#[trigger] monitors[i].x + monitors[i].width)
}

proof fn lemma_holding_fits(monitors: Seq<MonitorArea>, x: int, i: int)
    requires
        monitors_fit(monitors),
    ensures
        monitor_holding_from(monitors, x, i) matches Some(m) ==> fits_i32(m.x + m.width),
    decreases monitors.len() - i,
{
    if 0 <= i < monitors.len() && !monitor_holds(monitors[i], x) {
        lemma_holding_fits(monitors, x, i + 1);
    }
}

/// Where the top bar opens (see `top_window_place`).
pub fn top_window_position(
    saved_x: Option<i32>,
    monitors: &Vec<MonitorArea>,
    current: Option<MonitorArea>,
) -> (res: Option<(i32, i32)>)
    requires
        monitors_fit(monitors@),
        current matches Some(m) ==> fits_i32(m.x + m.width),
    ensures
        match top_window_place(saved_x, monitors@, current) {
            Some((x, y)) => res matches Some(r) && r.0 as int == x && r.1 as int == y,
            None => res.is_none(),
        },
{
    let saved: Option<i32> = match saved_x {
        Some(x) => if x > HIDDEN_COORDINATE {
            Some(x)
        } else {
            None
        },
        None => None,
    };
    let mut held: Option<MonitorArea> = None;
    if let Some(x) = saved {
        let n = monitors.len();
        let mut i: usize = 0;
        while i < n
            invariant_except_break
                held.is_none(),
            invariant
                n == monitors@.len(),
                i <= n,
                monitors_fit(monitors@),
                monitor_holding_from(monitors@, x as int, 0) == monitor_holding_from(
                    monitors@,
                    x as int,
                    i as int,
                ),
            ensures
                held == monitor_holding_from(monitors@, x as int, 0),
            decreases n - i,
        {
            let m = monitors[i];
            assert(fits_i32(monitors@[i as int].x + monitors@[i as int].width));
            if m.x <= x && (x as i64) < (m.x as i64) + (m.width as i64) {
                held = Some(m);
                break;
            }
            i = i + 1;
        }
    }
    let chosen = match held {
        Some(m) => Some(m),
        None => match current {
            Some(m) => Some(m),
            None => if monitors.len() > 0 {
                Some(monitors[0])
            } else {
                None
            },
        },
    };
    let m = match chosen {
        Some(m) => m,
        None => {
            return None;
        },
    };
    proof {
        if let Some(x) = saved {
            lemma_holding_fits(monitors@, x as int, 0);
        }
    }
    let spare = m.width.saturating_sub(m.top_width);
    let min_x = m.x;
    let max_x = (m.x as i64 + spare as i64) as i32;
    let x = match saved {
        Some(s) => if min_x <= s && s <= max_x {
            s
        } else {
            (m.x as i64 + (spare / 2) as i64) as i32
        },
        None => (m.x as i64 + (spare / 2) as i64) as i32,
    };
    Some((x, m.y))
}

/// Where the menu-bar window goes on its monitor, in the monitor's physical pixels: the
/// monitor's origin and size, and the panel size, edge inset, menu-bar height and the drop below
/// a clicked point, all already scaled to the monitor.
#[derive(Debug, Clone, Copy, PartialEq, Eq, Structural)]
pub struct MenubarGeometry {
    pub origin_x: i32,
    pub origin_y: i32,
    pub width: i32,
    pub height: i32,
    pub panel_width: i32,
    pub panel_height: i32,
    pub inset: i32,
    pub bar_height: i32,
    pub drop: i32,
}

/// The menu-bar window's position: centred under the clicked point (or, without one, at the
/// monitor's right edge), dropped below it but never above the menu bar, and kept inside the
/// monitor by the inset as far as the panel fits.
pub open spec fn menubar_place(g: MenubarGeometry, anchor: Option<(i32, i32)>) -> (int, int) {
    let bottom = g.origin_y + g.bar_height;
    let min_x = g.origin_x + g.inset;
    let max_x = larger(g.origin_x + g.width - g.panel_width - g.inset, min_x);
    let max_y = larger(g.origin_y + g.height - g.panel_height - g.inset, bottom);
    let ax: int = match anchor {
        Some((x, _)) => x as int,
        None => g.origin_x + g.width - half(g.panel_width as int) - g.inset,
    };
    let ay: int = match anchor {
        Some((_, y)) => y + g.drop,
        None => bottom,
    };
    let y = larger(ay, bottom);
    (clamped(ax - half(g.panel_width as int), min_x, max_x), if y < max_y {
        y
    } else {
        max_y
    })
}

/// Where the menu-bar window goes (see `menubar_place`).
pub fn menubar_position(g: MenubarGeometry, anchor: Option<(i32, i32)>) -> (res: (i32, i32))
    requires
        fits_i32(g.origin_x + g.inset),
        fits_i32(larger(g.origin_x + g.width - g.panel_width - g.inset, g.origin_x + g.inset)),
        fits_i32(g.origin_y + g.bar_height),
        fits_i32(larger(g.origin_y + g.height - g.panel_height - g.inset, g.origin_y + g.bar_height)),
    ensures
        res.0 as int == menubar_place(g, anchor).0,
        res.1 as int == menubar_place(g, anchor).1,
{
    let ox = g.origin_x as i64;
    let oy = g.origin_y as i64;
    let half_width = (g.panel_width / 2) as i64;
    let bottom = oy + g.bar_height as i64;
    let min_x = ox + g.inset as i64;
    let right = ox + g.width as i64 - g.panel_width as i64 - g.inset as i64;
    let max_x = if right >= min_x {
        right
    } else {
        min_x
    };
    let lowest = oy + g.height as i64 - g.panel_height as i64 - g.inset as i64;
    let max_y = if lowest >= bottom {
        lowest
    } else {
        bottom
    };
    let (ax, ay) = match anchor {
        Some((x, y)) => (x as i64, y as i64 + g.drop as i64),
        None => (ox + g.width as i64 - half_width - g.inset as i64, bottom),
    };
    let wanted = ax - half_width;
    let x = if wanted < min_x {
        min_x
    } else if wanted > max_x {
        max_x
    } else {
        wanted
    };
    let below = if ay >= bottom {
        ay
    } else {
        bottom
    };
    let y = if below < max_y {
        below
    } else {
        max_y
    };
    (x as i32, y as i32)
}

} // verus!
