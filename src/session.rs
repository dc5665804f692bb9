//! The keying session: the symbol buffer, the decoded text and the timer,
//! driven one event at a time.
use std::collections::HashMap;

use vstd::prelude::*;

use crate::table::{build_table, decode_symbols, decoded, is_symbols, morse_table};
use crate::timing::{Timing, BASE_UNIT, DASH, DOT};

verus! {

/// An event handed to the session.
#[derive(Clone, Copy, Debug, PartialEq, Eq, Structural)]
pub enum Msg {
    /// The key went down.
    KeyPressed,
    /// The key came up.
    KeyReleased,
    /// Empty the buffer and the decoded text.
    Clear,
    /// Decode the buffer into the text.
    Decode,
}

/// What a session holds, as values.
pub struct PromtView {
    /// The symbol buffer: glyphs and separators.
    pub morze: Seq<char>,
    /// The text from the last decoding.
    pub text: Seq<char>,
    /// When the last event came, in milliseconds.
    pub timer: u128,
    /// The timing windows.
    pub timing: Timing,
}

impl PromtView {
    pub open spec fn valid(self) -> bool {
        is_symbols(self.morze) && self.timing.well_formed()
    }

    /// The state after the key went down at `now`: a long enough pause
    /// appends a separator.
    pub open spec fn pressed(self, now: u128) -> PromtView {
        let morze = match self.timing.press_symbol(now - self.timer) {
            Some(c) => self.morze.push(c),
            None => self.morze,
        };
        PromtView { morze, timer: now, ..self }
    }

    /// The state after the key came up at `now`: a hold of dot or dash
    /// length appends that glyph.
    pub open spec fn released(self, now: u128) -> PromtView {
        let morze = match self.timing.release_symbol(now - self.timer) {
            Some(c) => self.morze.push(c),
            None => self.morze,
        };
        PromtView { morze, timer: now, ..self }
    }

    /// The state with an empty buffer and an empty text.
    pub open spec fn cleared(self) -> PromtView {
        PromtView { morze: Seq::empty(), text: Seq::empty(), ..self }
    }

    /// The state whose text is the decoding of the buffer.
    pub open spec fn with_decoded(self) -> PromtView {
        PromtView { text: decoded(morse_table(), self.morze), ..self }
    }

    /// The state after the event `m` at `now`; every event restarts the timer.
    pub open spec fn step(self, m: Msg, now: u128) -> PromtView {
        match m {
            Msg::KeyPressed => self.pressed(now),
            Msg::KeyReleased => self.released(now),
            Msg::Clear => PromtView { timer: now, ..self.cleared() },
            Msg::Decode => PromtView { timer: now, ..self.with_decoded() },
        }
    }
}

/// A key held for a time strictly inside the dot window adds exactly one
/// glyph to the buffer, a dot.
pub proof fn lemma_release_in_dot_window(v: PromtView, now: u128)
    requires
        v.valid(),
        now >= v.timer,
        v.timing.dot.lo < now - v.timer < v.timing.dot.hi,
    ensures
        v.released(now).morze == v.morze.push(DOT),
        v.released(now).morze.len() == v.morze.len() + 1,
{
}

/// A key held for a time strictly inside the dash window adds exactly one
/// glyph to the buffer, a dash.
pub proof fn lemma_release_in_dash_window(v: PromtView, now: u128)
    requires
        v.valid(),
        now >= v.timer,
        v.timing.line.lo < now - v.timer < v.timing.line.hi,
    ensures
        v.released(now).morze == v.morze.push(DASH),
        v.released(now).morze.len() == v.morze.len() + 1,
{
}

/// A key held for a time outside both the dot and the dash window adds
/// nothing to the buffer.
pub proof fn lemma_release_outside_windows(v: PromtView, now: u128)
    requires
        v.valid(),
        now >= v.timer,
        !v.timing.dot.holds(now - v.timer),
        !v.timing.line.holds(now - v.timer),
    ensures
        v.released(now).morze == v.morze,
        v.released(now).morze.len() == v.morze.len(),
{
}

/// Decoding twice in a row gives the same text, and leaves the buffer as it
/// was.
pub proof fn lemma_decode_twice(v: PromtView, first: u128, second: u128)
    requires
        v.valid(),
        first >= v.timer,
        second >= first,
    ensures
        v.step(Msg::Decode, first).step(Msg::Decode, second).text == v.step(
            Msg::Decode,
            first,
        ).text,
        v.step(Msg::Decode, first).step(Msg::Decode, second).morze == v.morze,
{
}

/// Decoding right after clearing gives the empty text.
pub proof fn lemma_clear_then_decode(v: PromtView, first: u128, second: u128)
    requires
        v.valid(),
        first >= v.timer,
        second >= first,
    ensures
        v.step(Msg::Clear, first).step(Msg::Decode, second).text == Seq::<char>::empty(),
        decoded(morse_table(), v.cleared().morze) == Seq::<char>::empty(),
{
}

/// A keying session.
pub struct Promt {
    morze: Vec<char>,
    text: Vec<char>,
    timer: u128,
    timing: Timing,
    morze_table: HashMap<u64, char>,
}

impl View for Promt {
    type V = PromtView;

    closed spec fn view(&self) -> PromtView {
        PromtView { morze: self.morze@, text: self.text@, timer: self.timer, timing: self.timing }
    }
}

impl Promt {
    /// The session's invariant: the buffer holds only glyphs and separators,
    /// the windows are ordered, and the table is the fixed one.
    pub closed spec fn well_formed(&self) -> bool {
        self@.valid() && self.morze_table@ == morse_table()
    }

    /// A session with the default base unit, whose timer starts at `now`.
    pub fn new(now: u128) -> (r: Promt)
        ensures
            r.well_formed(),
            r@ == (PromtView {
                morze: Seq::empty(),
                text: Seq::empty(),
                timer: now,
                timing: Timing::spec_from_unit(BASE_UNIT as int),
            }),
    {
        Promt::with_unit(BASE_UNIT, now)
    }

    /// A session whose dot lasts `unit` milliseconds, whose timer starts at
    /// `now`.
    pub fn with_unit(unit: u64, now: u128) -> (r: Promt)
        ensures
            r.well_formed(),
            r@ == (PromtView {
                morze: Seq::empty(),
                text: Seq::empty(),
                timer: now,
                timing: Timing::spec_from_unit(unit as int),
            }),
    {
        let r = Promt {
            morze: Vec::new(),
            text: Vec::new(),
            timer: now,
            timing: Timing::from_unit(unit),
            morze_table: build_table(),
        };
        proof {
            assert(r.morze@ =~= Seq::<char>::empty());
        }
        r
    }

    /// The key went down at `now`.
    pub fn on_key_down(&mut self, now: u128)
        requires
            old(self).well_formed(),
            now >= old(self)@.timer,
        ensures
            final(self).well_formed(),
            final(self)@ == old(self)@.pressed(now),
    {
        let elapsed = now - self.timer;
        match self.timing.classify_press(elapsed) {
            Some(c) => self.morze.push(c),
            None => {},
        }
        self.timer = now;
    }

    /// The key came up at `now`.
    pub fn on_key_up(&mut self, now: u128)
        requires
            old(self).well_formed(),
            now >= old(self)@.timer,
        ensures
            final(self).well_formed(),
            final(self)@ == old(self)@.released(now),
    {
        let elapsed = now - self.timer;
        match self.timing.classify_release(elapsed) {
            Some(c) => self.morze.push(c),
            None => {},
        }
        self.timer = now;
    }

    /// Empties the buffer and the decoded text.
    pub fn clear(&mut self)
        requires
            old(self).well_formed(),
        ensures
            final(self).well_formed(),
            final(self)@ == old(self)@.cleared(),
    {
        self.morze.clear();
        self.text.clear();
        proof {
            assert(self.morze@ =~= Seq::<char>::empty());
        }
    }

    /// The text that the buffer decodes to; the session is left as it is.
    pub fn decode(&self) -> (r: Vec<char>)
        requires
            self.well_formed(),
        ensures
            r@ == decoded(morse_table(), self@.morze),
    {
        decode_symbols(&self.morze_table, &self.morze)
    }

    /// Handles the event `message`, which came at `now`.
    pub fn update(&mut self, message: Msg, now: u128)
        requires
            old(self).well_formed(),
            now >= old(self)@.timer,
        ensures
            final(self).well_formed(),
            final(self)@ == old(self)@.step(message, now),
    {
        match message {
            Msg::KeyPressed => self.on_key_down(now),
            Msg::KeyReleased => self.on_key_up(now),
            Msg::Clear => {
                self.clear();
                self.timer = now;
            },
            Msg::Decode => {
                self.text = self.decode();
                self.timer = now;
            },
        }
    }

    /// The symbol buffer.
    pub fn morze(&self) -> (r: &Vec<char>)
        ensures
            r@ == self@.morze,
    {
        &self.morze
    }

    /// The text from the last decoding.
    pub fn text(&self) -> (r: &Vec<char>)
        ensures
            r@ == self@.text,
    {
        &self.text
    }

    /// When the last event came, in milliseconds.
    pub fn timer(&self) -> (r: u128)
        ensures
            r == self@.timer,
    {
        self.timer
    }

    /// The timing windows.
    pub fn timing(&self) -> (r: Timing)
        ensures
            r == self@.timing,
    {
        self.timing
    }
}

} // verus!
