use vstd::prelude::*;
use vstd::string::StringSliceAdditionalSpecFns;

use crate::text::{has_prefix, starts_with};

verus! {

/// Charging state reported by a battery.
#[derive(Debug, Copy, Clone, PartialEq, Eq, Structural)]
pub enum Status {
    Discharging,
    Charging,
    Charged,
    Unknown,
}

impl Status {
    /// Whether the device draws power from a cable.
    pub open spec fn spec_is_wired(self) -> bool {
        self is Charging || self is Charged
    }

    /// True when charging or charged.
    pub fn is_wired(self) -> (r: bool)
        ensures
            r == self.spec_is_wired(),
    {
        match self {
            Status::Charging | Status::Charged => true,
            _ => false,
        }
    }
}

/// The status named by the text that a battery driver reports.
pub open spec fn spec_status_of(value: Seq<u8>) -> Status {
    if has_prefix(value, "Discharging".spec_bytes()) {
        Status::Discharging
    } else if has_prefix(value, "Charging".spec_bytes()) {
        Status::Charging
    } else if has_prefix(value, "Charged".spec_bytes()) || has_prefix(
        value,
        "Not Charging".spec_bytes(),
    ) || has_prefix(value, "Full".spec_bytes()) {
        Status::Charged
    } else {
        Status::Unknown
    }
}

impl Status {
    /// Reads the status out of the text that a battery driver reports.
    pub fn from_label(value: &str) -> (r: Status)
        ensures
            r == spec_status_of(value.spec_bytes()),
    {
        if starts_with(value, "Discharging") {
            Status::Discharging
        } else if starts_with(value, "Charging") {
            Status::Charging
        } else if starts_with(value, "Charged") || starts_with(value, "Not Charging") || starts_with(
            value,
            "Full",
        ) {
            Status::Charged
        } else {
            Status::Unknown
        }
    }
}

/// The status named by the numeric code of a power cover's charger.
pub open spec fn spec_cover_status(code: i8) -> Status {
    if code == 0 {
        Status::Discharging
    } else if code == 2 {
        Status::Charging
    } else if code == 3 {
        Status::Charged
    } else {
        Status::Unknown
    }
}

impl Status {
    /// Reads the status out of the numeric code that a power cover reports.
    pub fn from_cover_code(code: i8) -> (r: Status)
        ensures
            r == spec_cover_status(code),
    {
        match code {
            0 => Status::Discharging,
            2 => Status::Charging,
            3 => Status::Charged,
            _ => Status::Unknown,
        }
    }
}

impl<'a> From<&'a str> for Status {
    fn from(value: &'a str) -> (r: Status) {
        Status::from_label(value)
    }
}

impl<'a> vstd::std_specs::convert::FromSpecImpl<&'a str> for Status {
    open spec fn obeys_from_spec() -> bool {
        true
    }

    open spec fn from_spec(value: &'a str) -> Status {
        spec_status_of(value.spec_bytes())
    }
}

} // verus!
