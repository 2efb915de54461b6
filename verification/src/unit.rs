//! The units a scan iterates over, and the three classes it tells apart.

use vstd::prelude::*;

verus! {

/// What a single unit of input means to the scanner.
#[derive(Clone, Copy, Debug, PartialEq, Eq, Structural)]
pub enum UnitClass {
    /// The line terminator. It ends a line and a word.
    Newline,
    /// A space, a horizontal tab or a carriage return. It ends a word.
    Blank,
    /// Anything else. It starts or extends a word.
    Word,
}

/// An element of scanned input: a Unicode scalar value in text, an octet in
/// binary data.
pub trait Unit: Copy {
    /// The class of this unit.
    spec fn class(self) -> UnitClass;

    /// Computes the class of this unit.
    fn class_of(self) -> (c: UnitClass)
        ensures
            c == self.class(),
    ;
}

impl Unit for char {
    open spec fn class(self) -> UnitClass {
        if self == '\n' {
            UnitClass::Newline
        } else if self == ' ' || self == '\t' || self == '\r' {
            UnitClass::Blank
        } else {
            UnitClass::Word
        }
    }

    fn class_of(self) -> (c: UnitClass) {
        if self == '\n' {
            UnitClass::Newline
        } else if self == ' ' || self == '\t' || self == '\r' {
            UnitClass::Blank
        } else {
            UnitClass::Word
        }
    }
}

/// The octet of a line feed.
pub const LINE_FEED: u8 = 0x0a;

/// The octet of a plain space.
pub const SPACE: u8 = 0x20;

/// The octet of a horizontal tab.
pub const TAB: u8 = 0x09;

/// The octet of a carriage return.
pub const CARRIAGE_RETURN: u8 = 0x0d;

impl Unit for u8 {
    open spec fn class(self) -> UnitClass {
        if self == LINE_FEED {
            UnitClass::Newline
        } else if self == SPACE || self == TAB || self == CARRIAGE_RETURN {
            UnitClass::Blank
        } else {
            UnitClass::Word
        }
    }

    fn class_of(self) -> (c: UnitClass) {
        if self == LINE_FEED {
            UnitClass::Newline
        } else if self == SPACE || self == TAB || self == CARRIAGE_RETURN {
            UnitClass::Blank
        } else {
            UnitClass::Word
        }
    }
}

/// Whether the unit separates words: a blank or a newline.
pub open spec fn is_space<T: Unit>(unit: T) -> bool {
    unit.class() != UnitClass::Word
}

/// Whether the unit terminates a line.
pub open spec fn is_newline<T: Unit>(unit: T) -> bool {
    unit.class() == UnitClass::Newline
}

} // verus!
