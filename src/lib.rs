//! Decoding of Morse code keyed with a single key.
//!
//! How long the key was held or left up decides the symbol: a short hold is a
//! dot, a longer one a dash, and a long pause before the next press separates
//! words. The resulting symbol buffer is decoded letter by letter through a
//! fixed table of Cyrillic letters.
use vstd::prelude::*;

pub mod session;
pub mod table;
pub mod timing;

verus! {

} // verus!
