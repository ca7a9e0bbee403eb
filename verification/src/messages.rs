use vstd::prelude::*;

verus! {

/// An authorization request (expected MTI "0100"). Every data element is an
/// opaque string; no semantic validation is applied beyond presence.
pub struct AuthorizationRequest {
    /// Message Type Indicator (expected "0100").
    pub mti: String,
    /// Primary Account Number (PAN).
    pub de2: String,
    /// Processing code.
    pub de3: String,
    /// Amount.
    pub de4: String,
    /// Transmission date and time.
    pub de7: String,
    /// Systems Trace Audit Number (STAN).
    pub de11: String,
    /// Merchant type.
    pub de18: String,
    /// Acquiring institution id.
    pub de32: String,
    /// Additional data (private use).
    pub de48: String,
    /// Currency code.
    pub de49: String,
    /// POS data.
    pub de61: String,
}

/// An authorization response (MTI "0110"): the request fields echoed
/// verbatim, plus a response code and a human-readable message.
pub struct AuthorizationResponse {
    /// Message Type Indicator ("0110").
    pub mti: String,
    /// Echo: Primary Account Number.
    pub de2: String,
    /// Echo: processing code.
    pub de3: String,
    /// Echo: amount.
    pub de4: String,
    /// Echo: transmission date and time.
    pub de7: String,
    /// Echo: STAN.
    pub de11: String,
    /// Echo: merchant type.
    pub de18: String,
    /// Echo: acquiring institution id.
    pub de32: String,
    /// Response code: "00" approved, "05" not authorized, "03" invalid MTI.
    pub de39: String,
    /// Echo: additional data.
    pub de48: String,
    /// Echo: currency code.
    pub de49: String,
    /// Echo: POS data.
    pub de61: String,
    /// Human-readable outcome.
    pub response_message: String,
}

/// A reversal request (expected MTI "0400"), referencing by STAN a
/// transaction that an earlier authorization may have stored.
pub struct ReversalRequest {
    /// Message Type Indicator (expected "0400").
    pub mti: String,
    /// Primary Account Number.
    pub de2: String,
    /// Processing code.
    pub de3: String,
    /// Amount.
    pub de4: String,
    /// Transmission date and time.
    pub de7: String,
    /// Systems Trace Audit Number (STAN).
    pub de11: String,
    /// Merchant type.
    pub de18: String,
    /// Point-of-service entry mode.
    pub de22: String,
    /// Acquiring institution id.
    pub de32: String,
    /// Original response code.
    pub de39: String,
    /// Additional data.
    pub de48: String,
    /// Currency code.
    pub de49: String,
    /// POS data.
    pub de61: String,
    /// Original data elements.
    pub de90: String,
}

/// A reversal response (MTI "0410"): the request fields echoed verbatim,
/// plus a response code and a human-readable message.
pub struct ReversalResponse {
    /// Message Type Indicator ("0410").
    pub mti: String,
    /// Echo: Primary Account Number.
    pub de2: String,
    /// Echo: processing code.
    pub de3: String,
    /// Echo: amount.
    pub de4: String,
    /// Echo: transmission date and time.
    pub de7: String,
    /// Echo: STAN.
    pub de11: String,
    /// Echo: merchant type.
    pub de18: String,
    /// Echo: acquiring institution id.
    pub de32: String,
    /// Response code: "00" approved, "94" not found, "03" invalid MTI.
    pub de39: String,
    /// Echo: additional data.
    pub de48: String,
    /// Echo: currency code.
    pub de49: String,
    /// Echo: POS data.
    pub de61: String,
    /// Echo: original data elements.
    pub de90: String,
    /// Human-readable outcome.
    pub response_message: String,
}

} // verus!
