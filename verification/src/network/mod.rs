//! The request and response model of the positioning service, and the
//! handler that turns one into the other.

pub mod handlers;
pub mod request;
pub mod response;
pub mod server;

pub use handlers::PositioningHandler;
pub use request::BeaconSignal;
pub use request::LocationRequest;
pub use request::LocationRequestOptions;
pub use response::HttpResponse;
pub use response::PositioningResult;
pub use response::ResponseStatus;
