//! Cell metrics: the size of a cell as derived from a font and the line
//! spacing.

use crate::error::Error;
use vstd::prelude::*;

verus! {

/// Largest line spacing, in pixels, that cell metrics are computed for.
pub const MAX_LINE_SPACE: i64 = 0x10_0000;

/// Largest magnitude, in units, of a metric of a well-formed `CellMetrics`.
pub const MAX_METRIC: i64 = 0x2_0000_0000;

/// A font, by family name and size.
pub struct Font {
    pub name: String,
    /// Size in units of a point.
    pub size: i64,
}

impl Clone for Font {
    fn clone(&self) -> (f: Font)
        ensures
            f.name@ == self.name@,
            f.size == self.size,
    {
        Font { name: self.name.clone(), size: self.size }
    }
}

impl Default for Font {
    fn default() -> (f: Font)
        ensures
            f.name@ == Seq::<char>::empty(),
            f.size == 0,
    {
        Font { name: String::new(), size: 0 }
    }
}

/// What the font measurement backend reports of a font, in units.
#[derive(Clone, Copy, Debug, PartialEq, Eq, Structural)]
pub struct FontMetrics {
    pub ascent: i32,
    pub descent: i32,
    pub approximate_char_width: i32,
    pub underline_position: i32,
    pub underline_thickness: i32,
}

/// Size and other metrics of the cells of a grid. All lengths are in units;
/// `height`, `ascent` and `decent` are whole pixels.
pub struct CellMetrics {
    pub height: i64,
    pub width: i64,
    pub ascent: i64,
    pub decent: i64,
    pub underline_thickness: i64,
    pub underline_position: i64,
    /// Extra space between lines, in pixels.
    pub line_space: i64,
    pub font: Font,
}

/// Half of `line_space` pixels, in units.
pub open spec fn half_space(line_space: int) -> int {
    line_space * 512
}

/// Font ascent or descent with half the line spacing added, rounded up to a
/// whole pixel; in units.
pub open spec fn padded(metric: int, line_space: int) -> int {
    crate::units::ceil_px(metric + half_space(line_space)) * 1024
}

impl CellMetrics {
    /// Every metric is small enough for pixel arithmetic on grids to stay in
    /// range.
    pub open spec fn wf(&self) -> bool {
        &&& -MAX_LINE_SPACE <= self.line_space <= MAX_LINE_SPACE
        &&& -MAX_METRIC <= self.height <= MAX_METRIC
        &&& -MAX_METRIC <= self.width <= MAX_METRIC
        &&& -MAX_METRIC <= self.ascent <= MAX_METRIC
        &&& -MAX_METRIC <= self.decent <= MAX_METRIC
        &&& -MAX_METRIC <= self.underline_thickness <= MAX_METRIC
        &&& -MAX_METRIC <= self.underline_position <= MAX_METRIC
    }

    /// The metrics that `fm` gives for the font and line spacing of `self`.
    pub open spec fn measured(&self, fm: FontMetrics) -> bool {
        &&& self.ascent == padded(fm.ascent as int, self.line_space as int)
        &&& self.decent == padded(fm.descent as int, self.line_space as int)
        &&& self.height == self.ascent + self.decent
        &&& self.width == fm.approximate_char_width
        &&& self.underline_position == fm.underline_position - half_space(self.line_space as int)
        &&& self.underline_thickness == fm.underline_thickness * 2
    }

    /// Recomputes the metrics from what the measurement backend reported for
    /// the font. With no report the metrics stay as they were and the call
    /// fails.
    pub fn update(&mut self, fm: Option<FontMetrics>) -> (res: Result<(), Error>)
        requires
            -MAX_LINE_SPACE <= old(self).line_space <= MAX_LINE_SPACE,
        ensures
            fm.is_none() ==> res == Err::<(), Error>(Error::GetPangoMetrics) && *final(self)
                == *old(self),
            fm.is_some() ==> res.is_ok() && final(self).measured(fm.unwrap()) && final(self).wf()
                && final(self).line_space == old(self).line_space && final(self).font
                    == old(self).font,
    {
        let fm = match fm {
            Some(fm) => fm,
            None => {
                return Err(Error::GetPangoMetrics);
            },
        };
        let extra: i64 = self.line_space * 512;
        let ascent: i64 = crate::units::ceil_to_px(fm.ascent as i64 + extra) * 1024;
        let decent: i64 = crate::units::ceil_to_px(fm.descent as i64 + extra) * 1024;
        self.ascent = ascent;
        self.decent = decent;
        self.height = ascent + decent;
        self.width = fm.approximate_char_width as i64;
        self.underline_position = fm.underline_position as i64 - extra;
        self.underline_thickness = fm.underline_thickness as i64 * 2;
        Ok(())
    }
}

impl Default for CellMetrics {
    fn default() -> (cm: CellMetrics)
        ensures
            cm.wf(),
            cm.height == 0,
            cm.width == 0,
            cm.ascent == 0,
            cm.decent == 0,
            cm.underline_thickness == 0,
            cm.underline_position == 0,
            cm.line_space == 0,
            cm.font.name@ == Seq::<char>::empty(),
            cm.font.size == 0,
    {
        CellMetrics {
            height: 0,
            width: 0,
            ascent: 0,
            decent: 0,
            underline_thickness: 0,
            underline_position: 0,
            line_space: 0,
            font: Font::default(),
        }
    }
}

impl Clone for CellMetrics {
    fn clone(&self) -> (cm: CellMetrics)
        ensures
            cm.height == self.height,
            cm.width == self.width,
            cm.ascent == self.ascent,
            cm.decent == self.decent,
            cm.underline_thickness == self.underline_thickness,
            cm.underline_position == self.underline_position,
            cm.line_space == self.line_space,
            cm.font.name@ == self.font.name@,
            cm.font.size == self.font.size,
    {
        CellMetrics {
            height: self.height,
            width: self.width,
            ascent: self.ascent,
            decent: self.decent,
            underline_thickness: self.underline_thickness,
            underline_position: self.underline_position,
            line_space: self.line_space,
            font: self.font.clone(),
        }
    }
}

} // verus!
