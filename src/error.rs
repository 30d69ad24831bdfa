use vstd::prelude::*;

verus! {

#[verifier::external_type_specification]
#[verifier::external_body]
pub struct ExJsonError(serde_json::Error);

#[verifier::external_type_specification]
#[verifier::external_body]
pub struct ExUreqError(ureq::Error);

/// Everything that can go wrong in a call to the service.
#[derive(Debug)]
pub enum BrainAIError {
    /// The service answered with a status outside the success range.
    HttpError { status: u16, message: String },
    /// No answer came within the configured time.
    Timeout,
    /// A body could not be encoded or decoded as JSON.
    Serialization(serde_json::Error),
    /// The request could not be carried out.
    Request(ureq::Error),
    /// Any other failure, with a description.
    Other(String),
}

} // verus!
