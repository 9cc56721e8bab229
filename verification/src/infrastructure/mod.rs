//! The inventory's store and the state the service shares.

pub mod repository;
pub mod state;

pub use repository::BeaconRepository;
pub use state::AppState;
