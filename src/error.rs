use vstd::prelude::*;

verus! {

/// A failure reported by the service inside a well-formed response.
#[derive(Debug)]
pub struct ServiceError {
    pub code: i64,
    pub message: String,
}

/// A failure of the transport before any body could be read.
#[derive(Debug)]
pub struct TransportError {
    pub message: String,
}

/// Why a body could not be decoded.
#[derive(Debug)]
pub enum ParseFailure {
    /// The body is not well-formed JSON; the parser's diagnostic.
    Syntax(serde_json::Error),
    /// The body is JSON, but neither an error nor the expected payload.
    Shape,
}

/// Every way in which a request can fail.
#[derive(Debug)]
pub enum RequestError {
    Transport(TransportError),
    Service(ServiceError),
    Parsing(ParseFailure),
}

} // verus!
