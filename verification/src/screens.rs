//! Integer layout of the menu screens: centring, rows of ball markers and the
//! level cards of the welcome screen.

use vstd::prelude::*;
use crate::renderer::trunc_div;

verus! {

pub const CARD_WIDTH: i32 = 120;
pub const CARD_HEIGHT: i32 = 140;
pub const CARD_GAP: i32 = 24;

/// Left edge that centres something `width` pixels wide on the screen.
pub fn centered_x(screen_width: u32, width: i32) -> (x: i32)
    requires
        i32::MIN <= screen_width as i32 - width <= i32::MAX,
    ensures
        x == trunc_div(screen_width as i32 - width, 2),
{
    let screen_w = screen_width as i32;
    assert(screen_w == screen_width as i32);
    (screen_w - width) / 2
}

/// Row that lies `percent` hundredths down the screen.
pub fn screen_percent(screen_height: u32, percent: i32) -> (y: i32)
    requires
        i32::MIN <= (screen_height as i32) * percent <= i32::MAX,
    ensures
        y == trunc_div((screen_height as i32) * percent, 100),
{
    let screen_h = screen_height as i32;
    assert(screen_h == screen_height as i32);
    (screen_h * percent) / 100
}

/// Centres of a row of `count` round markers of the given radius, `gap`
/// pixels apart, centred in the span `container_x .. container_x +
/// container_width`.
pub open spec fn marker_row_first(
    count: int,
    radius: int,
    gap: int,
    container_x: int,
    container_width: int,
) -> int {
    let total = count * radius * 2 + (if count >= 1 {
        count - 1
    } else {
        0
    }) * gap;
    container_x + trunc_div(container_width - total, 2) + radius
}

/// Law: a row of `count >= 1` markers that fits its span is centred in it:
/// the space left of the first marker and right of the last one add up to
/// what the row leaves free, and differ by at most one pixel (the right one
/// getting the odd pixel).
pub proof fn law_marker_row_centred(
    count: int,
    radius: int,
    gap: int,
    container_x: int,
    container_width: int,
)
    requires
        count >= 1,
        container_width >= count * radius * 2 + (count - 1) * gap,
    ensures
        ({
            let first = marker_row_first(count, radius, gap, container_x, container_width);
            let last = first + (count - 1) * (radius * 2 + gap);
            let free = container_width - (count * radius * 2 + (count - 1) * gap);
            let left = first - radius - container_x;
            let right = container_x + container_width - (last + radius);
            &&& left + right == free
            &&& 0 <= right - left <= 1
        }),
{
    let total = count * radius * 2 + (count - 1) * gap;
    let free = container_width - total;
    assert(trunc_div(free, 2) == free / 2);
    assert((count - 1) * (radius * 2 + gap) + radius * 2 == total) by (nonlinear_arith)
        requires
            total == count * radius * 2 + (count - 1) * gap,
    ;
}

/// The arithmetic of a marker row stays within `i32`.
pub open spec fn marker_row_fits(
    count: int,
    radius: int,
    gap: int,
    container_x: int,
    container_width: int,
) -> bool {
    let spaces = if count >= 1 {
        count - 1
    } else {
        0
    };
    let total = count * radius * 2 + spaces * gap;
    let first = marker_row_first(count, radius, gap, container_x, container_width);
    &&& count <= i32::MAX
    &&& i32::MIN <= count * radius <= i32::MAX
    &&& i32::MIN <= count * radius * 2 <= i32::MAX
    &&& i32::MIN <= spaces * gap <= i32::MAX
    &&& i32::MIN <= total <= i32::MAX
    &&& i32::MIN <= container_width - total <= i32::MAX
    &&& i32::MIN <= container_x + trunc_div(container_width - total, 2) <= i32::MAX
    &&& i32::MIN <= first <= i32::MAX
    &&& i32::MIN <= radius * 2 <= i32::MAX
    &&& i32::MIN <= radius * 2 + gap <= i32::MAX
    &&& i32::MIN <= first + count * (radius * 2 + gap) <= i32::MAX
}

/// Horizontal centres of a row of `count` markers (see [`marker_row_first`]),
/// each `2 * radius + gap` right of the one before.
pub fn marker_row(count: usize, radius: i32, gap: i32, container_x: i32, container_width: i32) -> (xs:
    Vec<i32>)
    requires
        marker_row_fits(
            count as int,
            radius as int,
            gap as int,
            container_x as int,
            container_width as int,
        ),
    ensures
        xs@.len() == count,
        forall|k: int|
            0 <= k < count ==> #[trigger] xs@[k] == marker_row_first(
                count as int,
                radius as int,
                gap as int,
                container_x as int,
                container_width as int,
            ) + k * (radius * 2 + gap),
{
    let ghost first = marker_row_first(
        count as int,
        radius as int,
        gap as int,
        container_x as int,
        container_width as int,
    );
    let n = count as i32;
    let spaces = count.saturating_sub(1) as i32;
    let total = n * radius * 2 + spaces * gap;
    let step = radius * 2 + gap;
    let mut x = container_x + (container_width - total) / 2 + radius;
    let mut xs: Vec<i32> = Vec::new();
    let mut k: usize = 0;
    while k < count
        invariant
            k <= count,
            count <= i32::MAX,
            step == radius * 2 + gap,
            i32::MIN <= first <= i32::MAX,
            i32::MIN <= first + count * step <= i32::MAX,
            x == first + k * step,
            xs@.len() == k,
            forall|m: int| 0 <= m < k ==> #[trigger] xs@[m] == first + m * step,
        decreases count - k,
    {
        xs.push(x);
        proof {
            assert(i32::MIN <= first + (k + 1) * step <= i32::MAX) by (nonlinear_arith)
                requires
                    i32::MIN <= first <= i32::MAX,
                    i32::MIN <= first + count * step <= i32::MAX,
                    0 <= k < count,
            ;
            assert(first + (k + 1) * step == first + k * step + step) by (nonlinear_arith);
        }
        x = x + step;
        k += 1;
    }
    xs
}

/// Left edge of the card of `level` on the welcome screen: the three cards
/// side by side, centred, `CARD_GAP` apart.
pub fn level_card_x(screen_width: u32, level: u32) -> (x: i32)
    requires
        1 <= level <= 3,
        i32::MIN + 3 * CARD_WIDTH + 2 * CARD_GAP <= screen_width as i32,
    ensures
        x == trunc_div(screen_width as i32 - (3 * CARD_WIDTH + 2 * CARD_GAP), 2) + (level - 1) * (
        CARD_WIDTH + CARD_GAP),
{
    let total_width = CARD_WIDTH * 3 + CARD_GAP * 2;
    let start_x = centered_x(screen_width, total_width);
    start_x + (level as i32 - 1) * (CARD_WIDTH + CARD_GAP)
}

/// Top edge of the level cards: 2% of the screen below `top_y`.
pub fn level_card_y(screen_height: u32, top_y: i32) -> (y: i32)
    requires
        i32::MIN <= (screen_height as i32) * 2 <= i32::MAX,
        i32::MIN <= top_y + trunc_div((screen_height as i32) * 2, 100) <= i32::MAX,
    ensures
        y == top_y + trunc_div((screen_height as i32) * 2, 100),
{
    top_y + screen_percent(screen_height, 2)
}

} // verus!
