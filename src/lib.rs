//! A typed client binding for the read-only query methods of a music
//! metadata web service: request building, parameter encoding and the
//! resolution of a JSON response body into a payload or an error.

pub mod encode;
pub mod error;
pub mod json;
pub mod period;
pub mod request;
pub mod resolve;
pub mod top_artists;

pub use encode::{decimal_string, Param};
pub use error::{ParseFailure, RequestError, ServiceError, TransportError};
pub use json::{parse_json, JsonValue};
pub use period::Period;
pub use request::{Client, RequestBuilder};
pub use resolve::{resolve_json, service_error};
pub use top_artists::{Artist, ArtistAttributes, Attributes, Image, TopArtists};
