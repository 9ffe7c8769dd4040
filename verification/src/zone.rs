//! Time zones of the IANA database, and what a local date and time resolves
//! to in one of them.

use vstd::prelude::*;
use vstd::string::*;
use crate::chrono_api::{zone_exists, zone_is_known};

verus! {

/// What a date and time on the clocks of a zone resolves to, each instant in
/// seconds from the epoch.
#[derive(Clone, Copy, Debug, PartialEq, Eq, Structural)]
pub enum LocalResolution {
    /// The clocks skipped this time: it never was.
    Gap,
    /// The clocks showed this time once.
    Single(i64),
    /// The clocks showed this time twice, when they were set back.
    Ambiguous(i64, i64),
}

/// A time zone that the zone database knows, held by its name.
#[derive(Debug, PartialEq, Eq)]
pub struct TimeZone {
    name: String,
}

impl View for TimeZone {
    type V = Seq<char>;

    closed spec fn view(&self) -> Seq<char> {
        self.name@
    }
}

impl TimeZone {
    #[verifier::type_invariant]
    spec fn is_known(self) -> bool {
        zone_exists(self.name@)
    }

    /// The zone of that name, if the zone database has one.
    pub fn from_name(name: &str) -> (zone: Option<TimeZone>)
        ensures
            zone.is_some() <==> zone_exists(name@),
            zone matches Some(z) ==> z@ == name@,
    {
        if zone_is_known(name) {
            Some(TimeZone { name: String::from_str(name) })
        } else {
            None
        }
    }

    /// Coordinated Universal Time.
    pub fn utc() -> (zone: TimeZone)
        ensures
            zone@ == "UTC"@,
    {
        let _known = zone_is_known("UTC");
        TimeZone { name: String::from_str("UTC") }
    }

    /// The name of the zone in the zone database.
    pub fn name(&self) -> (name: &str)
        ensures
            name@ == self@,
            zone_exists(name@),
    {
        proof {
            use_type_invariant(self);
        }
        self.name.as_str()
    }
}

impl Clone for TimeZone {
    fn clone(&self) -> (copy: TimeZone)
        ensures
            copy@ == self@,
    {
        proof {
            use_type_invariant(self);
        }
        TimeZone { name: self.name.clone() }
    }
}

} // verus!
