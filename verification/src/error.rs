use vstd::prelude::*;

verus! {

/// Errors raised while carrying out a request against the content API.
///
/// Failures that originate in unverified transport code (the HTTP client,
/// JSON decoding, environment lookup) are carried as plain messages; the
/// URL-building failure keeps its structured cause.
#[derive(Debug)]
pub enum RequestError {
    URLParsingError(URLError),
    ReqwestError(String),
    JsonParsingError(String),
    MissingEnvVarError(String),
    StringParsingError(String),
}

/// Error raised when the parts handed to the URL builder cannot form a
/// well-formed request URL.
#[derive(Debug)]
pub enum URLError {
    InvalidURL(String),
}

/// Error raised while reading the client configuration.
#[derive(Debug)]
pub enum ConfigurationError {
    MissingProjectID,
    MissingDataset,
}

/// Error raised when a document tree is constructed with an impossible
/// shape: a block node must have at least one child.
#[derive(Debug)]
pub enum StructuralError {
    EmptyBlock,
}

} // verus!
