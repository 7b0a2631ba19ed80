//! Colours and the table of highlights.

use std::collections::HashMap;
use vstd::prelude::*;

verus! {

broadcast use vstd::std_specs::hash::group_hash_axioms;

/// An opaque colour, 8 bits per channel.
#[derive(Clone, Copy, Debug, PartialEq, Eq, Structural)]
pub struct Color {
    pub r: u8,
    pub g: u8,
    pub b: u8,
}

/// A style: colours, where the style sets them, and emphasis flags.
#[derive(Clone, Copy, Debug)]
pub struct Highlight {
    pub foreground: Option<Color>,
    pub background: Option<Color>,
    pub special: Option<Color>,
    pub reverse: bool,
    pub italic: bool,
    pub bold: bool,
    pub underline: bool,
    pub undercurl: bool,
}

/// The style that sets nothing.
pub open spec fn plain_highlight() -> Highlight {
    Highlight {
        foreground: None,
        background: None,
        special: None,
        reverse: false,
        italic: false,
        bold: false,
        underline: false,
        undercurl: false,
    }
}

impl Default for Highlight {
    fn default() -> (hl: Highlight)
        ensures
            hl == plain_highlight(),
    {
        Highlight {
            foreground: None,
            background: None,
            special: None,
            reverse: false,
            italic: false,
            bold: false,
            underline: false,
            undercurl: false,
        }
    }
}

/// The table of styles by id, with the colours used where a style leaves one
/// unset.
pub struct HlDefs {
    pub hl_defs: HashMap<u64, Highlight>,
    pub default_fg: Color,
    pub default_bg: Color,
    pub default_sp: Color,
}

impl View for HlDefs {
    type V = Map<u64, Highlight>;

    open spec fn view(&self) -> Map<u64, Highlight> {
        self.hl_defs@
    }
}

impl Default for HlDefs {
    /// An empty table: white on black, red for special strokes.
    fn default() -> (defs: HlDefs)
        ensures
            defs@ == Map::<u64, Highlight>::empty(),
            defs.default_fg == (Color { r: 255, g: 255, b: 255 }),
            defs.default_bg == (Color { r: 0, g: 0, b: 0 }),
            defs.default_sp == (Color { r: 255, g: 0, b: 0 }),
    {
        HlDefs {
            hl_defs: HashMap::new(),
            default_fg: Color { r: 255, g: 255, b: 255 },
            default_bg: Color { r: 0, g: 0, b: 0 },
            default_sp: Color { r: 255, g: 0, b: 0 },
        }
    }
}

impl HlDefs {
    /// The style with id `id`, if the table has one.
    pub fn get(&self, id: &u64) -> (hl: Option<&Highlight>)
        ensures
            self@.contains_key(*id) ==> hl.is_some() && *hl.unwrap() == self@[*id],
            !self@.contains_key(*id) ==> hl.is_none(),
    {
        self.hl_defs.get(id)
    }

    /// Sets the style with id `id`, and returns the one it replaces.
    pub fn insert(&mut self, id: u64, hl: Highlight) -> (prev: Option<Highlight>)
        ensures
            final(self)@ == old(self)@.insert(id, hl),
            final(self).default_fg == old(self).default_fg,
            final(self).default_bg == old(self).default_bg,
            final(self).default_sp == old(self).default_sp,
            old(self)@.contains_key(id) ==> prev == Some(old(self)@[id]),
            !old(self)@.contains_key(id) ==> prev.is_none(),
    {
        self.hl_defs.insert(id, hl)
    }
}

} // verus!
