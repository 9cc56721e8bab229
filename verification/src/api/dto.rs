//! The bodies of the inventory service's answers.

use vstd::prelude::*;
use vstd::std_specs::convert::FromSpecImpl;
use crate::domain::beacon::Beacon;
use crate::domain::beacon::BeaconView;
use crate::domain::location::LocationView;
use crate::scalar::Scalar;

verus! {

/// The status of every success.
pub const STATUS_OK: u16 = 200;

/// The body of an answer that carries data.
#[derive(Debug)]
pub struct ApiResponse<T> {
    pub status: u16,
    pub if_success: bool,
    /// What the answer is about.
    pub message: String,
    pub data: Option<T>,
}

impl<T> ApiResponse<T> {
    /// A success with its data.
    pub fn success(message: String, data: T) -> (r: Self)
        ensures
            r.status == STATUS_OK,
            r.if_success,
            r.message@ == message@,
            r.data == Some(data),
    {
        ApiResponse { status: STATUS_OK, if_success: true, message, data: Some(data) }
    }
}

/// The body of an answer that reports an error.
#[derive(Debug)]
pub struct ErrorResponse {
    pub status: u16,
    pub if_success: bool,
    pub message: String,
}

impl ErrorResponse {
    /// An error with its status and message.
    pub fn new(status: u16, message: String) -> (r: Self)
        ensures
            r.status == status,
            !r.if_success,
            r.message@ == message@,
    {
        ErrorResponse { status, if_success: false, message }
    }
}

/// A location as it is shown to clients.
#[derive(Debug)]
pub struct LocationDto {
    pub x: Scalar,
    pub y: Scalar,
    pub z: Scalar,
    pub floor: String,
    pub area_id: String,
}

impl View for LocationDto {
    type V = LocationView;

    open spec fn view(&self) -> LocationView {
        LocationView {
            x: self.x,
            y: self.y,
            z: self.z,
            floor: self.floor@,
            area_id: self.area_id@,
        }
    }
}

/// A device as it is shown to clients: everything the store holds of it.
#[derive(Debug)]
pub struct BeaconDto {
    pub id: String,
    pub uuid: String,
    pub major: i32,
    pub minor: i32,
    pub location: LocationDto,
    pub power: i32,
    pub interval: i32,
    pub status: String,
}

impl View for BeaconDto {
    type V = BeaconView;

    open spec fn view(&self) -> BeaconView {
        BeaconView {
            id: self.id@,
            uuid: self.uuid@,
            major: self.major,
            minor: self.minor,
            location: self.location@,
            power: self.power,
            interval: self.interval,
            status: self.status@,
        }
    }
}

impl Clone for LocationDto {
    fn clone(&self) -> (r: Self)
        ensures
            r@ == self@,
    {
        LocationDto {
            x: self.x,
            y: self.y,
            z: self.z,
            floor: self.floor.clone(),
            area_id: self.area_id.clone(),
        }
    }
}

impl Clone for BeaconDto {
    fn clone(&self) -> (r: Self)
        ensures
            r@ == self@,
    {
        BeaconDto {
            id: self.id.clone(),
            uuid: self.uuid.clone(),
            major: self.major,
            minor: self.minor,
            location: self.location.clone(),
            power: self.power,
            interval: self.interval,
            status: self.status.clone(),
        }
    }
}

impl BeaconDto {
    /// What is shown of a device: every field as the device has it.
    pub open spec fn showing(beacon: Beacon) -> BeaconDto {
        BeaconDto {
            id: beacon.id,
            uuid: beacon.uuid,
            major: beacon.major,
            minor: beacon.minor,
            location: LocationDto {
                x: beacon.location.x,
                y: beacon.location.y,
                z: beacon.location.z,
                floor: beacon.location.floor,
                area_id: beacon.location.area_id,
            },
            power: beacon.power,
            interval: beacon.interval,
            status: beacon.status,
        }
    }
}

impl<'a> FromSpecImpl<&'a Beacon> for BeaconDto {
    open spec fn obeys_from_spec() -> bool {
        true
    }

    open spec fn from_spec(beacon: &'a Beacon) -> BeaconDto {
        BeaconDto::showing(*beacon)
    }
}

impl<'a> From<&'a Beacon> for BeaconDto {
    fn from(beacon: &'a Beacon) -> (r: Self)
        ensures
            r@ == beacon@,
    {
        BeaconDto {
            id: beacon.id.clone(),
            uuid: beacon.uuid.clone(),
            major: beacon.major,
            minor: beacon.minor,
            location: LocationDto {
                x: beacon.location.x,
                y: beacon.location.y,
                z: beacon.location.z,
                floor: beacon.location.floor.clone(),
                area_id: beacon.location.area_id.clone(),
            },
            power: beacon.power,
            interval: beacon.interval,
            status: beacon.status.clone(),
        }
    }
}

impl FromSpecImpl<Beacon> for BeaconDto {
    open spec fn obeys_from_spec() -> bool {
        true
    }

    open spec fn from_spec(beacon: Beacon) -> BeaconDto {
        BeaconDto::showing(beacon)
    }
}

impl From<Beacon> for BeaconDto {
    fn from(beacon: Beacon) -> (r: Self)
        ensures
            r@ == beacon@,
    {
        BeaconDto {
            id: beacon.id,
            uuid: beacon.uuid,
            major: beacon.major,
            minor: beacon.minor,
            location: LocationDto {
                x: beacon.location.x,
                y: beacon.location.y,
                z: beacon.location.z,
                floor: beacon.location.floor,
                area_id: beacon.location.area_id,
            },
            power: beacon.power,
            interval: beacon.interval,
            status: beacon.status,
        }
    }
}

} // verus!
