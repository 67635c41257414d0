//! Popup placement: where the quick-insert window goes, given the cursor and
//! the work area of the monitor under it.

use vstd::prelude::*;

verus! {

/// Width the popup is assumed to take, in physical pixels.
pub const POPUP_WIDTH: i32 = 450;

/// Height the popup is assumed to take, in physical pixels.
pub const POPUP_HEIGHT: i32 = 600;

/// Gap kept between the popup and the edges of the work area.
pub const MARGIN: i32 = 10;

/// The usable rectangle of a monitor, without taskbars and docks.
#[derive(Clone, Copy, Debug, PartialEq, Eq, Structural)]
pub struct WorkArea {
    pub left: i32,
    pub top: i32,
    pub right: i32,
    pub bottom: i32,
}

/// What the platform said when asked where the cursor is.
#[derive(Clone, Copy, Debug, PartialEq, Eq, Structural)]
pub enum CursorQuery {
    /// The platform reported this position.
    At(i32, i32),
    /// The platform has a cursor query, and it failed.
    Failed,
    /// The platform has no cursor query.
    Unsupported,
}

pub open spec fn min_int(a: int, b: int) -> int {
    if a <= b { a } else { b }
}

pub open spec fn max_int(a: int, b: int) -> int {
    if a >= b { a } else { b }
}

/// Horizontal position of the popup: at the cursor, pulled left until its
/// right edge keeps the margin, and never left of the left margin.
pub open spec fn popup_x(cursor_x: int, left: int, right: int) -> int {
    max_int(left + MARGIN, min_int(cursor_x, right - POPUP_WIDTH - MARGIN))
}

/// Vertical position of the popup: below the cursor where the popup and the
/// margin fit above the bottom edge, else above the cursor; never above the
/// top margin.
pub open spec fn popup_y(cursor_y: int, top: int, bottom: int) -> int {
    let anchored = if cursor_y + POPUP_HEIGHT + MARGIN > bottom {
        cursor_y - POPUP_HEIGHT - MARGIN
    } else {
        cursor_y
    };
    max_int(top + MARGIN, anchored)
}

/// Whether both coordinates of the placement can be held in an `i32`.
pub open spec fn placement_representable(cursor_x: int, cursor_y: int, area: WorkArea) -> bool {
    &&& i32::MIN <= popup_x(cursor_x, area.left as int, area.right as int) <= i32::MAX
    &&& i32::MIN <= popup_y(cursor_y, area.top as int, area.bottom as int) <= i32::MAX
}

/// The work area assumed when the platform cannot name one.
pub open spec fn fallback_work_area() -> WorkArea {
    WorkArea { left: 0, top: 0, right: 1920, bottom: 1080 }
}

/// The work area to place against: the one the platform reported for the
/// monitor under the cursor, or the fallback when the query failed.
pub fn get_monitor_work_area(reported: Option<WorkArea>) -> (area: WorkArea)
    ensures
        area == match reported {
            Some(a) => a,
            None => fallback_work_area(),
        },
{
    match reported {
        Some(a) => a,
        None => WorkArea { left: 0, top: 0, right: 1920, bottom: 1080 },
    }
}

/// The cursor position to place against. A failed query leaves the origin;
/// a platform without a cursor query gets a fixed point near the corner.
pub fn get_cursor_position(query: CursorQuery) -> (at: (i32, i32))
    ensures
        at == match query {
            CursorQuery::At(x, y) => (x, y),
            CursorQuery::Failed => (0i32, 0i32),
            CursorQuery::Unsupported => (100i32, 100i32),
        },
{
    match query {
        CursorQuery::At(x, y) => (x, y),
        CursorQuery::Failed => (0, 0),
        CursorQuery::Unsupported => (100, 100),
    }
}

/// Tells whether `calculate_popup_position` may be called on these inputs.
pub fn placement_fits(cursor_x: i32, cursor_y: i32, area: WorkArea) -> (fits: bool)
    ensures
        fits == placement_representable(cursor_x as int, cursor_y as int, area),
{
    let x: i64 = place_x(cursor_x, area.left, area.right);
    let y: i64 = place_y(cursor_y, area.top, area.bottom);
    -2147483648 <= x && x <= 2147483647 && -2147483648 <= y && y <= 2147483647
}

fn place_x(cursor_x: i32, left: i32, right: i32) -> (x: i64)
    ensures
        x == popup_x(cursor_x as int, left as int, right as int),
{
    let mut x: i64 = cursor_x as i64;
    let right_limit: i64 = right as i64 - POPUP_WIDTH as i64 - MARGIN as i64;
    let left_limit: i64 = left as i64 + MARGIN as i64;
    if x > right_limit {
        x = right_limit;
    }
    if x < left_limit {
        x = left_limit;
    }
    x
}

fn place_y(cursor_y: i32, top: i32, bottom: i32) -> (y: i64)
    ensures
        y == popup_y(cursor_y as int, top as int, bottom as int),
{
    let mut y: i64 = cursor_y as i64;
    if y + POPUP_HEIGHT as i64 + MARGIN as i64 > bottom as i64 {
        y = y - POPUP_HEIGHT as i64 - MARGIN as i64;
    }
    let top_limit: i64 = top as i64 + MARGIN as i64;
    if y < top_limit {
        y = top_limit;
    }
    y
}

/// Places the popup for a cursor at `(cursor_x, cursor_y)` on a monitor whose
/// work area is `area`.
pub fn calculate_popup_position(cursor_x: i32, cursor_y: i32, area: WorkArea) -> (at: (i32, i32))
    requires
        placement_representable(cursor_x as int, cursor_y as int, area),
    ensures
        at.0 == popup_x(cursor_x as int, area.left as int, area.right as int),
        at.1 == popup_y(cursor_y as int, area.top as int, area.bottom as int),
{
    let x: i64 = place_x(cursor_x, area.left, area.right);
    let y: i64 = place_y(cursor_y, area.top, area.bottom);
    (x as i32, y as i32)
}

/// On a work area wide enough for the popup and both margins, the popup lies
/// between the margins horizontally.
pub proof fn law_popup_keeps_side_margins(cursor_x: int, left: int, right: int)
    requires
        right - left >= POPUP_WIDTH + 2 * MARGIN,
    ensures
        left + MARGIN <= popup_x(cursor_x, left, right),
        popup_x(cursor_x, left, right) + POPUP_WIDTH <= right - MARGIN,
{
}

/// The popup never starts above the top margin: it starts at the margin, at
/// the cursor, or a popup height and a margin above the cursor.
pub proof fn law_popup_vertical_choices(cursor_y: int, top: int, bottom: int)
    ensures
        popup_y(cursor_y, top, bottom) >= top + MARGIN,
        popup_y(cursor_y, top, bottom) == top + MARGIN
            || popup_y(cursor_y, top, bottom) == cursor_y
            || popup_y(cursor_y, top, bottom) == cursor_y - POPUP_HEIGHT - MARGIN,
{
}

} // verus!
