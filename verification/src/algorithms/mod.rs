//! The positioning engine: beacons at known places, the signals heard from
//! them, and the rules by which a position is chosen from both.

pub mod anchor;
pub mod beacon;
pub mod decision;
pub mod estimate;
pub mod kernel;
pub mod location;
pub mod method;
pub mod model;
pub mod signal;
pub mod solver;
pub mod worksheet;

pub use beacon::Beacon;
pub use beacon::BeaconSet;
pub use estimate::PositionEstimate;
pub use kernel::Query;
pub use kernel::Reply;
pub use location::LocationAlgorithm;
pub use method::Algorithm;
pub use method::Method;
pub use model::DistanceUnit;
pub use model::RSSIModel;
pub use signal::SignalReadings;
