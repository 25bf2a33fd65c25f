//! The tray icon's image and the commands of its context menu.
//!
//! Creating the icon and menu with the system is the application's part.

use vstd::prelude::*;

verus! {

/// Width and height of the tray icon in pixels.
pub const ICON_SIZE: u32 = 16;

/// Whether pixel `(x, y)` lies on the icon's one-pixel border.
pub open spec fn on_border(x: int, y: int) -> bool {
    x == 0 || x == ICON_SIZE - 1 || y == 0 || y == ICON_SIZE - 1
}

/// Channel `ch` (red, green, blue, alpha) of pixel `(x, y)`: white on the
/// border, the Windows 11 blue accent `(0, 120, 212)` inside, always opaque.
pub open spec fn icon_channel(x: int, y: int, ch: int) -> u8 {
    if on_border(x, y) {
        255
    } else if ch == 0 {
        0
    } else if ch == 1 {
        120
    } else if ch == 2 {
        212
    } else {
        255
    }
}

/// Byte `i` of the icon's RGBA image, row by row.
pub open spec fn icon_byte(i: int) -> u8 {
    icon_channel((i / 4) % 16, (i / 4) / 16, i % 4)
}

proof fn lemma_split_index(p: int, k: int)
    requires
        0 <= p,
        0 <= k < 4,
    ensures
        (4 * p + k) / 4 == p,
        (4 * p + k) % 4 == k,
{
}

proof fn lemma_split_pixel(x: int, y: int)
    requires
        0 <= x < 16,
        0 <= y,
    ensures
        (16 * y + x) / 16 == y,
        (16 * y + x) % 16 == x,
{
}

/// The 16x16 RGBA image of the tray icon: a blue square with a white border.
pub fn icon_rgba() -> (rgba: Vec<u8>)
    ensures
        rgba@.len() == 4 * ICON_SIZE * ICON_SIZE,
        forall|i: int| 0 <= i < rgba@.len() ==> #[trigger] rgba@[i] == icon_byte(i),
{
    let size = ICON_SIZE;
    let mut rgba: Vec<u8> = Vec::new();
    let mut y: u32 = 0;
    while y < size
        invariant
            size == 16,
            y <= size,
            rgba@.len() == 4 * 16 * y,
            forall|i: int| 0 <= i < rgba@.len() ==> #[trigger] rgba@[i] == icon_byte(i),
        decreases size - y,
    {
        let mut x: u32 = 0;
        assert(4 * (16 * y + x) == 4 * 16 * y) by (nonlinear_arith)
            requires
                x == 0,
        ;
        while x < size
            invariant
                size == 16,
                y < size,
                x <= size,
                rgba@.len() == 4 * (16 * y + x),
                forall|i: int| 0 <= i < rgba@.len() ==> #[trigger] rgba@[i] == icon_byte(i),
            decreases size - x,
        {
            let border = x == 0 || x == size - 1 || y == 0 || y == size - 1;
            let ghost base: int = 4 * (16 * y + x);
            proof {
                lemma_split_index(16 * y + x, 0);
                lemma_split_index(16 * y + x, 1);
                lemma_split_index(16 * y + x, 2);
                lemma_split_index(16 * y + x, 3);
                lemma_split_pixel(x as int, y as int);
            }
            if border {
                rgba.push(255);
                rgba.push(255);
                rgba.push(255);
                rgba.push(255);
            } else {
                rgba.push(0);
                rgba.push(120);
                rgba.push(212);
                rgba.push(255);
            }
            assert(rgba@[base] == icon_byte(base));
            assert(rgba@[base + 1] == icon_byte(base + 1));
            assert(rgba@[base + 2] == icon_byte(base + 2));
            assert(rgba@[base + 3] == icon_byte(base + 3));
            x = x + 1;
        }
        assert(4 * (16 * y + x) == 4 * 16 * (y + 1)) by (nonlinear_arith)
            requires
                x == 16,
        ;
        y = y + 1;
    }
    rgba
}

/// A command of the tray's context menu.
#[derive(Debug, Clone, Copy, PartialEq, Eq, Structural)]
pub enum TrayCommand {
    /// "Show / Hide".
    ToggleWindow,
    /// "Toggle Compact".
    ToggleCompact,
    /// "Quit".
    Quit,
}

} // verus!
