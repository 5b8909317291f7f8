//! Ladder entries of the Stream API: price/size pairs and positioned
//! (level, price, size) triples, as they arrive in market and order changes.
use vstd::prelude::*;

use crate::available::{Available, UpdateSet};
use crate::messages::copy_vec;

verus! {

/// A price, in hundredths of the decimal odds (1.01 is 101).
pub type Price = u64;

/// A stake or a matched amount, in hundredths of the currency unit.
pub type Size = u64;

/// A depth level in a positioned ladder (0 is the best level).
pub type Position = u64;

/// A `[price, size]` ladder entry; a size of zero removes the price.
#[derive(Clone, Copy, Debug, PartialEq, Eq, Structural)]
pub struct UpdateSet2(pub Price, pub Size);

/// A `[level, price, size]` ladder entry; a size of zero removes the level.
#[derive(Clone, Copy, Debug, PartialEq, Eq, Structural)]
pub struct UpdateSet3(pub Position, pub Price, pub Size);

impl UpdateSet for UpdateSet2 {
    type Value = Size;

    open spec fn spec_key(&self) -> u64 {
        self.0
    }

    open spec fn spec_value(&self) -> Size {
        self.1
    }

    open spec fn is_removal(v: Size) -> bool {
        v == 0
    }

    fn value(&self) -> (v: Size) {
        self.1
    }

    fn key(&self) -> (k: u64) {
        self.0
    }

    fn should_be_deleted(&self) -> (b: bool) {
        self.1 == 0
    }
}

impl UpdateSet for UpdateSet3 {
    type Value = (Price, Size);

    open spec fn spec_key(&self) -> u64 {
        self.0
    }

    open spec fn spec_value(&self) -> (Price, Size) {
        (self.1, self.2)
    }

    open spec fn is_removal(v: (Price, Size)) -> bool {
        v.1 == 0
    }

    fn value(&self) -> (v: (Price, Size)) {
        (self.1, self.2)
    }

    fn key(&self) -> (k: u64) {
        self.0
    }

    fn should_be_deleted(&self) -> (b: bool) {
        self.2 == 0
    }
}

impl Clone for Available<UpdateSet2> {
    /// A copy of the ladder.
    fn clone(&self) -> (r: Self)
        ensures
            r.book@ == self.book@,
    {
        Available { book: copy_vec(&self.book) }
    }
}

impl Clone for Available<UpdateSet3> {
    /// A copy of the ladder.
    fn clone(&self) -> (r: Self)
        ensures
            r.book@ == self.book@,
    {
        Available { book: copy_vec(&self.book) }
    }
}

} // verus!
