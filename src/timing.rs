//! Timing windows that turn a measured duration into a symbol.
use vstd::prelude::*;

verus! {

/// The dot glyph.
pub const DOT: char = '*';

/// The dash glyph.
pub const DASH: char = '—';

/// The separator between letters in the symbol buffer.
pub const GAP: char = ' ';

/// A closed range of durations, in milliseconds.
#[derive(Clone, Copy, Debug, PartialEq, Eq, Structural)]
pub struct Window {
    pub lo: u128,
    pub hi: u128,
}

impl Window {
    /// Whether the duration `t` falls inside the window, both ends included.
    pub open spec fn holds(self, t: int) -> bool {
        self.lo <= t <= self.hi
    }

    pub fn contains(&self, t: u128) -> (r: bool)
        ensures
            r == self.holds(t as int),
    {
        self.lo <= t && t <= self.hi
    }
}

/// The three windows of the timing model, all derived from one base unit:
/// the length of a dot.
#[derive(Clone, Copy, Debug, PartialEq, Eq, Structural)]
pub struct Timing {
    /// How long the key is held for a dot.
    pub dot: Window,
    /// How long the key is held for a dash.
    pub line: Window,
    /// How long the key is left up before a press that starts a new word.
    pub space: Window,
}

/// The base unit used when none is given, in milliseconds.
pub const BASE_UNIT: u64 = 100;

impl Timing {
    /// The windows are ordered: a dot is never longer than a dash, so the two
    /// windows meet at one point at most, where the dot wins.
    pub open spec fn well_formed(self) -> bool {
        &&& self.dot.lo <= self.dot.hi
        &&& self.dot.hi <= self.line.lo
        &&& self.line.lo <= self.line.hi
        &&& self.space.lo <= self.space.hi
    }

    /// The windows for the base unit `unit`: a dot lasts from half a unit to
    /// one and a half, a dash from one and a half units to four and a half,
    /// and a word pause from three units to nine.
    pub open spec fn spec_from_unit(unit: int) -> Timing {
        Timing {
            dot: Window { lo: (unit / 2) as u128, hi: (unit * 3 / 2) as u128 },
            line: Window { lo: (unit * 3 / 2) as u128, hi: (unit * 9 / 2) as u128 },
            space: Window { lo: (unit * 3) as u128, hi: (unit * 9) as u128 },
        }
    }

    /// The symbol that a key held for `t` milliseconds stands for, if any.
    pub open spec fn release_symbol(self, t: int) -> Option<char> {
        if self.dot.holds(t) {
            Some(DOT)
        } else if self.line.holds(t) {
            Some(DASH)
        } else {
            None
        }
    }

    /// The separator that a press after a pause of `t` milliseconds stands
    /// for, if any.
    pub open spec fn press_symbol(self, t: int) -> Option<char> {
        if self.space.holds(t) {
            Some(GAP)
        } else {
            None
        }
    }

    pub fn from_unit(unit: u64) -> (r: Timing)
        ensures
            r == Timing::spec_from_unit(unit as int),
            r.well_formed(),
    {
        let u = unit as u128;
        Timing {
            dot: Window { lo: u / 2, hi: u * 3 / 2 },
            line: Window { lo: u * 3 / 2, hi: u * 9 / 2 },
            space: Window { lo: u * 3, hi: u * 9 },
        }
    }

    /// Classifies how long the key was held.
    pub fn classify_release(&self, t: u128) -> (r: Option<char>)
        ensures
            r == self.release_symbol(t as int),
    {
        if self.dot.contains(t) {
            Some(DOT)
        } else if self.line.contains(t) {
            Some(DASH)
        } else {
            None
        }
    }

    /// Classifies how long the key was left up before a press.
    pub fn classify_press(&self, t: u128) -> (r: Option<char>)
        ensures
            r == self.press_symbol(t as int),
    {
        if self.space.contains(t) {
            Some(GAP)
        } else {
            None
        }
    }
}

} // verus!
