//! Where a device is installed.

use vstd::prelude::*;
use vstd::string::StringExecFns;
use crate::error::AppError;
use crate::error::AppErrorView;
use crate::scalar::Scalar;

verus! {

/// A place in a building: coordinates, floor and area.
#[derive(Debug)]
pub struct Location {
    pub x: Scalar,
    pub y: Scalar,
    /// The height.
    pub z: Scalar,
    pub floor: String,
    pub area_id: String,
}

/// The mathematical content of a `Location`.
pub struct LocationView {
    pub x: Scalar,
    pub y: Scalar,
    pub z: Scalar,
    pub floor: Seq<char>,
    pub area_id: Seq<char>,
}

impl View for Location {
    type V = LocationView;

    open spec fn view(&self) -> LocationView {
        LocationView {
            x: self.x,
            y: self.y,
            z: self.z,
            floor: self.floor@,
            area_id: self.area_id@,
        }
    }
}

impl LocationView {
    /// What is wrong with the location, if anything: the floor is looked at
    /// before the area.
    pub open spec fn fault(self) -> Option<AppErrorView> {
        if self.floor.len() == 0 {
            Some(AppErrorView::ValidationError("Floor cannot be empty"@))
        } else if self.area_id.len() == 0 {
            Some(AppErrorView::ValidationError("Area ID cannot be empty"@))
        } else {
            None
        }
    }
}

impl Clone for Location {
    fn clone(&self) -> (r: Self)
        ensures
            r@ == self@,
    {
        Location {
            x: self.x,
            y: self.y,
            z: self.z,
            floor: self.floor.clone(),
            area_id: self.area_id.clone(),
        }
    }
}

impl Location {
    pub fn new(x: Scalar, y: Scalar, z: Scalar, floor: String, area_id: String) -> (r: Self)
        ensures
            r@ == (LocationView { x, y, z, floor: floor@, area_id: area_id@ }),
    {
        Location { x, y, z, floor, area_id }
    }

    /// Accepts a location that names its floor and its area.
    pub fn validate(&self) -> (r: Result<(), AppError>)
        ensures
            match self@.fault() {
                None => r is Ok,
                Some(e) => r matches Err(f) && f@ == e,
            },
    {
        if self.floor.as_str().is_empty() {
            return Err(AppError::ValidationError(String::from_str("Floor cannot be empty")));
        }
        if self.area_id.as_str().is_empty() {
            return Err(AppError::ValidationError(String::from_str("Area ID cannot be empty")));
        }
        Ok(())
    }
}

} // verus!
