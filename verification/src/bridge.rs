//! What the editor's protocol sends about modes and scroll regions.

use vstd::prelude::*;

verus! {

/// What a mode of the editor asks of the cursor.
#[derive(Clone, Copy, Debug, PartialEq, Eq, Structural)]
pub struct ModeInfo {
    /// Half the length of a blink cycle in milliseconds; 0 for no blinking.
    pub blink_on: u64,
    /// Part of the cell's width that the cursor covers, in units of 1/1024.
    pub cell_percentage: i64,
}

/// A scroll region of a grid, as `[top, bot, left, right]`: rows `top..bot`,
/// columns `left..right`.
pub struct GridScrollRegion(pub [u64; 4]);

/// The row bands of a scroll: rows `src_top..src_bot` move to
/// `dst_top..dst_bot`, and rows `clr_top..clr_bot` are left blank.
#[derive(Clone, Copy, Debug, PartialEq, Eq, Structural)]
pub struct GridScrollArea {
    pub src_top: u64,
    pub src_bot: u64,
    pub dst_top: u64,
    pub dst_bot: u64,
    pub clr_top: u64,
    pub clr_bot: u64,
}

/// Number of rows that content really moves when a region of rows
/// `top..bot` is scrolled by `count`: the magnitude of `count`, but no more
/// than the region is high.
pub open spec fn shift_of(top: int, bot: int, count: int) -> int {
    let height = if bot >= top {
        bot - top
    } else {
        0
    };
    let wanted = if count >= 0 {
        count
    } else {
        -count
    };
    if wanted > height {
        height
    } else {
        wanted
    }
}

/// The bands of a scroll of rows `top..bot` by `count` rows: for a positive
/// `count` content moves up and the bottom of the region is left blank, else
/// content moves down and the top is left blank.
pub open spec fn area_of(top: u64, bot: u64, count: int) -> GridScrollArea {
    let n = shift_of(top as int, bot as int, count);
    if count > 0 {
        GridScrollArea {
            src_top: (top + n) as u64,
            src_bot: bot,
            dst_top: top,
            dst_bot: (bot - n) as u64,
            clr_top: (bot - n) as u64,
            clr_bot: bot,
        }
    } else {
        GridScrollArea {
            src_top: top,
            src_bot: (bot - n) as u64,
            dst_top: (top + n) as u64,
            dst_bot: bot,
            clr_top: top,
            clr_bot: (top + n) as u64,
        }
    }
}

impl GridScrollRegion {
    /// The bands of a scroll of this region by `count` rows.
    pub fn calc_area(&self, count: i64) -> (area: GridScrollArea)
        ensures
            area == area_of(self.0[0], self.0[1], count as int),
    {
        let top: u64 = self.0[0];
        let bot: u64 = self.0[1];
        let height: u64 = if bot >= top {
            bot - top
        } else {
            0
        };
        let wanted: u64 = if count >= 0 {
            count as u64
        } else if count == -9223372036854775808 {
            9223372036854775808
        } else {
            (-count) as u64
        };
        let n: u64 = if wanted > height {
            height
        } else {
            wanted
        };
        if count > 0 {
            GridScrollArea {
                src_top: top + n,
                src_bot: bot,
                dst_top: top,
                dst_bot: bot - n,
                clr_top: bot - n,
                clr_bot: bot,
            }
        } else {
            GridScrollArea {
                src_top: top,
                src_bot: bot - n,
                dst_top: top + n,
                dst_bot: bot,
                clr_top: top,
                clr_bot: top + n,
            }
        }
    }
}

} // verus!
