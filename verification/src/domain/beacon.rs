//! A beacon as a device of the inventory.

use vstd::prelude::*;
use vstd::string::StringExecFns;
use crate::domain::location::Location;
use crate::domain::location::LocationView;
use crate::error::AppError;
use crate::error::AppErrorView;
use crate::text::text_is;

verus! {

/// The weakest transmit power a device may be set to, in dBm.
pub const MIN_POWER: i32 = -100;

/// A device with what is configured on it.
#[derive(Debug)]
pub struct Beacon {
    pub id: String,
    pub uuid: String,
    pub major: i32,
    pub minor: i32,
    pub location: Location,
    /// Transmit power in dBm.
    pub power: i32,
    /// Advertising interval in milliseconds.
    pub interval: i32,
    pub status: String,
}

/// The mathematical content of a `Beacon`.
pub struct BeaconView {
    pub id: Seq<char>,
    pub uuid: Seq<char>,
    pub major: i32,
    pub minor: i32,
    pub location: LocationView,
    pub power: i32,
    pub interval: i32,
    pub status: Seq<char>,
}

impl View for Beacon {
    type V = BeaconView;

    open spec fn view(&self) -> BeaconView {
        BeaconView {
            id: self.id@,
            uuid: self.uuid@,
            major: self.major,
            minor: self.minor,
            location: self.location@,
            power: self.power,
            interval: self.interval,
            status: self.status@,
        }
    }
}

/// The lower-case form of a text, as `str::to_lowercase` gives it.
pub uninterp spec fn lowercased(text: Seq<char>) -> Seq<char>;

/// `str::to_lowercase`: the lower-case form of `text` by the Unicode rules of
/// the standard library. The contract gives that form its name and claims
/// nothing else of it.
#[verifier::external_body]
fn to_lowercase(text: &str) -> (r: String)
    ensures
        r@ == lowercased(text@),
{
    text.to_lowercase()
}

impl BeaconView {
    /// What is wrong with the device, if anything. The id is looked at first,
    /// then the UUID, the power, the interval, and the location last.
    pub open spec fn fault(self) -> Option<AppErrorView> {
        if self.id.len() == 0 {
            Some(AppErrorView::ValidationError("Beacon ID cannot be empty"@))
        } else if self.uuid.len() == 0 {
            Some(AppErrorView::ValidationError("UUID cannot be empty"@))
        } else if self.power < MIN_POWER || self.power > 0 {
            Some(AppErrorView::ValidationError("Power must be between -100 and 0 dBm"@))
        } else if self.interval <= 0 {
            Some(AppErrorView::ValidationError("Interval must be greater than 0"@))
        } else {
            self.location.fault()
        }
    }

    /// Whether the status reads `active`, in any case of letters.
    pub open spec fn active(self) -> bool {
        lowercased(self.status) == "active"@
    }
}

impl Clone for Beacon {
    fn clone(&self) -> (r: Self)
        ensures
            r@ == self@,
    {
        Beacon {
            id: self.id.clone(),
            uuid: self.uuid.clone(),
            major: self.major,
            minor: self.minor,
            location: self.location.clone(),
            power: self.power,
            interval: self.interval,
            status: self.status.clone(),
        }
    }
}

impl Beacon {
    pub fn new(
        id: String,
        uuid: String,
        major: i32,
        minor: i32,
        location: Location,
        power: i32,
        interval: i32,
        status: String,
    ) -> (r: Self)
        ensures
            r@ == (BeaconView {
                id: id@,
                uuid: uuid@,
                major,
                minor,
                location: location@,
                power,
                interval,
                status: status@,
            }),
    {
        Beacon { id, uuid, major, minor, location, power, interval, status }
    }

    /// Accepts a device with an id, a UUID, a power between -100 and 0 dBm, a
    /// positive interval and a valid location.
    pub fn validate(&self) -> (r: Result<(), AppError>)
        ensures
            match self@.fault() {
                None => r is Ok,
                Some(e) => r matches Err(f) && f@ == e,
            },
    {
        if self.id.as_str().is_empty() {
            return Err(AppError::ValidationError(String::from_str("Beacon ID cannot be empty")));
        }
        if self.uuid.as_str().is_empty() {
            return Err(AppError::ValidationError(String::from_str("UUID cannot be empty")));
        }
        if self.power < MIN_POWER || self.power > 0 {
            return Err(
                AppError::ValidationError(String::from_str("Power must be between -100 and 0 dBm")),
            );
        }
        if self.interval <= 0 {
            return Err(
                AppError::ValidationError(String::from_str("Interval must be greater than 0")),
            );
        }
        self.location.validate()
    }

    /// Whether a status already in lower case reads `active`.
    pub fn reads_active(lowered: &String) -> (r: bool)
        ensures
            r == (lowered@ == "active"@),
    {
        text_is(lowered, "active")
    }

    /// Whether the device is active: its status reads `active`, in any case
    /// of letters.
    pub fn is_active(&self) -> (r: bool)
        ensures
            r == self@.active(),
    {
        let lowered = to_lowercase(self.status.as_str());
        Self::reads_active(&lowered)
    }
}

} // verus!
