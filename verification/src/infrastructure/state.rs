//! The state that the service's handlers share.

use vstd::prelude::*;
use crate::infrastructure::repository::spec_stock;
use crate::infrastructure::repository::BeaconRepository;

verus! {

/// Everything the handlers share: the store of devices.
pub struct AppState {
    beacon_repo: BeaconRepository,
}

impl AppState {
    /// The store of devices.
    pub closed spec fn repository(&self) -> BeaconRepository {
        self.beacon_repo
    }

    /// The state a service starts with: a store with the stock devices.
    pub fn new() -> (r: Self)
        ensures
            r.repository().entries() == spec_stock(),
    {
        AppState { beacon_repo: BeaconRepository::new() }
    }

    /// The store of devices.
    pub fn beacon_repository(&self) -> (r: &BeaconRepository)
        ensures
            *r == self.repository(),
    {
        &self.beacon_repo
    }
}

impl Default for AppState {
    fn default() -> (r: Self)
        ensures
            r.repository().entries() == spec_stock(),
    {
        AppState::new()
    }
}

} // verus!
