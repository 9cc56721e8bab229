//! The answers of the inventory service's endpoints.

use vstd::prelude::*;
use vstd::string::StringExecFns;
use crate::api::dto::ApiResponse;
use crate::api::dto::BeaconDto;
use crate::api::dto::STATUS_OK;
use crate::domain::beacon::Beacon;
use crate::error::AppError;
use crate::infrastructure::repository::BeaconRepository;

verus! {

/// The body of the health endpoint's answer.
#[derive(Debug)]
pub struct HealthResponse {
    pub status: String,
    pub message: String,
}

/// The health endpoint: the service is running.
pub fn health_check() -> (r: HealthResponse)
    ensures
        r.status@ == "healthy"@,
        r.message@ == "Server is running"@,
{
    HealthResponse {
        status: String::from_str("healthy"),
        message: String::from_str("Server is running"),
    }
}

/// The devices as they are shown to clients, in their order.
pub fn show_all(beacons: &Vec<Beacon>) -> (r: Vec<BeaconDto>)
    ensures
        r@.map_values(|d: BeaconDto| d@) == beacons@.map_values(|b: Beacon| b@),
{
    let n = beacons.len();
    let mut out: Vec<BeaconDto> = Vec::new();
    let mut i: usize = 0;
    while i < n
        invariant
            i <= n,
            n == beacons.len(),
            out@.len() == i,
            forall|j: int| 0 <= j < i ==> (#[trigger] out@[j])@ == beacons@[j]@,
        decreases n - i,
    {
        let dto = BeaconDto::from(&beacons[i]);
        out.push(dto);
        i = i + 1;
    }
    proof {
        assert(out@.map_values(|d: BeaconDto| d@) =~= beacons@.map_values(|b: Beacon| b@));
    }
    out
}

/// The endpoint that lists all devices: a success that shows every device of
/// the store, in the store's order.
pub fn get_all_beacons(repository: &BeaconRepository) -> (r: Result<
    ApiResponse<Vec<BeaconDto>>,
    AppError,
>)
    ensures
        r matches Ok(body) && {
            &&& body.status == STATUS_OK
            &&& body.if_success
            &&& body.message@ == "获取所有beacon设备成功"@
            &&& body.data matches Some(shown)
            &&& shown@.map_values(|d: BeaconDto| d@) == repository.entries()
        },
{
    match repository.find_all() {
        Ok(beacons) => {
            let shown = show_all(&beacons);
            Ok(ApiResponse::success(String::from_str("获取所有beacon设备成功"), shown))
        },
        Err(e) => Err(e),
    }
}

} // verus!
