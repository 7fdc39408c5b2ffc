//! Marker types that fix, in a value's static type, the calendar its fields
//! are read in and the time scale they are measured on.
use vstd::prelude::*;

verus! {

/// A calendar system: a full canonical name and the short token used when a
/// date is written out as text.
pub trait Calendar {
    /// The full canonical name, as text.
    spec fn full_name() -> Seq<char>;

    /// The short token, as text.
    spec fn token() -> Seq<char>;

    fn name() -> (r: &'static str)
        ensures
            r@ == Self::full_name(),
    ;

    fn short_name() -> (r: &'static str)
        ensures
            r@ == Self::token(),
    ;
}

/// A time scale: a canonical name used when a date is written out as text.
pub trait Scale {
    /// The canonical name, as text.
    spec fn scale_name() -> Seq<char>;

    fn name() -> (r: &'static str)
        ensures
            r@ == Self::scale_name(),
    ;
}

/// The Gregorian calendar.
#[derive(Clone, Copy, Debug, PartialEq, Eq)]
pub struct Gregorian;

/// The Julian calendar.
#[derive(Clone, Copy, Debug, PartialEq, Eq)]
pub struct Julian;

/// Barycentric Dynamical Time, the scale of Ephemeris Time.
#[derive(Clone, Copy, Debug, PartialEq, Eq)]
pub struct TDB;

/// Terrestrial Dynamical Time.
#[derive(Clone, Copy, Debug, PartialEq, Eq)]
pub struct TDT;

/// Coordinated Universal Time.
#[derive(Clone, Copy, Debug, PartialEq, Eq)]
pub struct UTC;

impl Calendar for Gregorian {
    open spec fn full_name() -> Seq<char> {
        seq!['G', 'R', 'E', 'G', 'O', 'R', 'I', 'A', 'N']
    }

    open spec fn token() -> Seq<char> {
        seq!['G', 'C', 'A', 'L']
    }

    fn name() -> (r: &'static str) {
        proof {
            reveal_strlit("GREGORIAN");
        }
        let r = "GREGORIAN";
        assert(r@ =~= Self::full_name());
        r
    }

    fn short_name() -> (r: &'static str) {
        proof {
            reveal_strlit("GCAL");
        }
        let r = "GCAL";
        assert(r@ =~= Self::token());
        r
    }
}

impl Calendar for Julian {
    open spec fn full_name() -> Seq<char> {
        seq!['J', 'U', 'L', 'I', 'A', 'N']
    }

    open spec fn token() -> Seq<char> {
        seq!['J', 'C', 'A', 'L']
    }

    fn name() -> (r: &'static str) {
        proof {
            reveal_strlit("JULIAN");
        }
        let r = "JULIAN";
        assert(r@ =~= Self::full_name());
        r
    }

    fn short_name() -> (r: &'static str) {
        proof {
            reveal_strlit("JCAL");
        }
        let r = "JCAL";
        assert(r@ =~= Self::token());
        r
    }
}

impl Scale for TDB {
    open spec fn scale_name() -> Seq<char> {
        seq!['T', 'D', 'B']
    }

    fn name() -> (r: &'static str) {
        proof {
            reveal_strlit("TDB");
        }
        let r = "TDB";
        assert(r@ =~= Self::scale_name());
        r
    }
}

impl Scale for TDT {
    open spec fn scale_name() -> Seq<char> {
        seq!['T', 'D', 'T']
    }

    fn name() -> (r: &'static str) {
        proof {
            reveal_strlit("TDT");
        }
        let r = "TDT";
        assert(r@ =~= Self::scale_name());
        r
    }
}

impl Scale for UTC {
    open spec fn scale_name() -> Seq<char> {
        seq!['U', 'T', 'C']
    }

    fn name() -> (r: &'static str) {
        proof {
            reveal_strlit("UTC");
        }
        let r = "UTC";
        assert(r@ =~= Self::scale_name());
        r
    }
}

} // verus!
