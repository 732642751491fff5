//! What can go wrong while a request is served.

use vstd::prelude::*;
use vstd::string::*;
use crate::text::{decimal, decimal_digits};

verus! {

/// A failure that ends a request, or a single provider's part in it.
#[derive(Clone, Debug, PartialEq, Eq)]
pub enum ServiceError {
    /// The request carried no query string at all.
    MissingParams,
    /// The query string was there but could not be read; the text says why.
    InvalidParams(String),
    /// The date in the path is not a calendar date written `YYYY-MM-DD`.
    InvalidDateFormat,
    /// The date lies before today.
    DateInPast,
    /// The date lies more than five days after today.
    DateTooFar,
    /// The geocoding service knows no position for the location.
    GeocodeFailed,
    /// An upstream service answered with a status other than 200.
    UnexpectedStatus(u16),
    /// An upstream service could not be reached or its answer could not be
    /// decoded; the text says why.
    Upstream(String),
}

impl ServiceError {
    /// The text shown to the client for this failure.
    pub open spec fn message_text(&self) -> Seq<char> {
        match self {
            ServiceError::MissingParams => "Missing required params"@,
            ServiceError::InvalidParams(reason) => reason@,
            ServiceError::InvalidDateFormat => "Invalid date format"@,
            ServiceError::DateInPast => "Date is in the past"@,
            ServiceError::DateTooFar => "Date is more than 5 days in the future"@,
            ServiceError::GeocodeFailed => "Failed to geocode location"@,
            ServiceError::UnexpectedStatus(code) => "Unexpected HTTP status "@ + decimal_digits(
                *code as nat,
            ),
            ServiceError::Upstream(reason) => reason@,
        }
    }

    /// Writes the text shown to the client for this failure.
    pub fn message(&self) -> (text: String)
        ensures
            text@ == self.message_text(),
    {
        match self {
            ServiceError::MissingParams => String::from_str("Missing required params"),
            ServiceError::InvalidParams(reason) => reason.clone(),
            ServiceError::InvalidDateFormat => String::from_str("Invalid date format"),
            ServiceError::DateInPast => String::from_str("Date is in the past"),
            ServiceError::DateTooFar => String::from_str("Date is more than 5 days in the future"),
            ServiceError::GeocodeFailed => String::from_str("Failed to geocode location"),
            ServiceError::UnexpectedStatus(code) => {
                let number = decimal(*code as u64);
                String::from_str("Unexpected HTTP status ").concat(number.as_str())
            },
            ServiceError::Upstream(reason) => reason.clone(),
        }
    }
}

} // verus!
