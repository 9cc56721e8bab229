//! The inventory's model: beacons as devices, and where they are installed.

pub mod beacon;
pub mod location;

pub use beacon::Beacon;
pub use location::Location;
