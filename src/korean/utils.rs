use serde_json::Value;
use vstd::prelude::*;

verus! {

#[verifier::external_type_specification]
#[verifier::external_body]
pub struct ExValue(Value);

#[verifier::external_type_specification]
#[verifier::external_body]
pub struct ExJsonError(serde_json::Error);

/// Relies on `serde_json::from_str`: parses `text` as one JSON value.
#[verifier::external_body]
fn parse_json(text: &str) -> Result<Value, serde_json::Error> {
    serde_json::from_str(text)
}

/// Relies on `serde_json::Value::get` with a string key: the member of that
/// name when `v` is an object that has one.
#[verifier::external_body]
fn member<'a>(v: &'a Value, key: &str) -> Option<&'a Value> {
    v.get(key)
}

/// Relies on `serde_json::Value::as_str`: the text of `v` when it is a JSON
/// string.
pub assume_specification<'a>[ Value::as_str ](v: &'a Value) -> Option<&'a str>;

/// Why no exchange rate could be read from a response.
#[derive(Debug)]
pub enum RateError {
    /// The response is not JSON.
    InvalidJson,
    /// The response has no `Realtime Currency Exchange Rate` member.
    MissingResponse,
    /// That member has no `5. Exchange Rate` member.
    MissingRate,
    /// The rate is not a JSON string.
    RateNotText,
}

impl RateError {
    /// A short human-readable description of the error.
    pub fn message(&self) -> (r: &'static str)
        ensures
            r@ == match *self {
                RateError::InvalidJson => "Response is not JSON"@,
                RateError::MissingResponse => "Response not found"@,
                RateError::MissingRate => "Nope"@,
                RateError::RateNotText => "none"@,
            },
    {
        match self {
            RateError::InvalidJson => "Response is not JSON",
            RateError::MissingResponse => "Response not found",
            RateError::MissingRate => "Nope",
            RateError::RateNotText => "none",
        }
    }
}

/// The KRW to USD exchange rate, as text, out of an exchange-rate response:
/// the string at `"Realtime Currency Exchange Rate"` / `"5. Exchange Rate"`.
pub fn exchange_rate_text(body: &str) -> (r: Result<String, RateError>) {
    let json = match parse_json(body) {
        Ok(json) => json,
        Err(_) => return Err(RateError::InvalidJson),
    };
    let response = match member(&json, "Realtime Currency Exchange Rate") {
        Some(response) => response,
        None => return Err(RateError::MissingResponse),
    };
    let rate = match member(response, "5. Exchange Rate") {
        Some(rate) => rate,
        None => return Err(RateError::MissingRate),
    };
    match rate.as_str() {
        Some(text) => Ok(text.to_owned()),
        None => Err(RateError::RateNotText),
    }
}

} // verus!
