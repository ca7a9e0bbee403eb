use iso8583_mock::handlers::{authorize, reversal};
use iso8583_mock::messages::{AuthorizationRequest, ReversalRequest};
use iso8583_mock::store::AppState;

fn auth_request(mti: &str, pan: &str, stan: &str) -> AuthorizationRequest {
    AuthorizationRequest {
        mti: mti.to_string(),
        de2: pan.to_string(),
        de3: "000000".to_string(),
        de4: "000000010000".to_string(),
        de7: "1013120000".to_string(),
        de11: stan.to_string(),
        de18: "5999".to_string(),
        de32: "123456".to_string(),
        de48: "additional".to_string(),
        de49: "840".to_string(),
        de61: "pos-data".to_string(),
    }
}

fn reversal_request(mti: &str, stan: &str) -> ReversalRequest {
    ReversalRequest {
        mti: mti.to_string(),
        de2: "4111111111111111".to_string(),
        de3: "000000".to_string(),
        de4: "000000010000".to_string(),
        de7: "1013123000".to_string(),
        de11: stan.to_string(),
        de18: "5999".to_string(),
        de22: "012".to_string(),
        de32: "123456".to_string(),
        de39: "00".to_string(),
        de48: "additional".to_string(),
        de49: "840".to_string(),
        de61: "pos-data".to_string(),
        de90: "original-data".to_string(),
    }
}

#[test]
fn authorize_visa_pan_is_approved_and_stored() {
    let mut state = AppState::new();
    let req = auth_request("0100", "4111111111111111", "100001");
    let resp = authorize(&mut state, &req);
    assert_eq!(resp.mti, "0110");
    assert_eq!(resp.de39, "00");
    assert_eq!(resp.response_message, "Transaction Approved");
    assert!(state.authorized_transactions.contains(&"100001".to_string()));
}

#[test]
fn authorize_other_pan_is_declined_and_not_stored() {
    let mut state = AppState::new();
    let req = auth_request("0100", "5500000000000004", "100002");
    let resp = authorize(&mut state, &req);
    assert_eq!(resp.mti, "0110");
    assert_eq!(resp.de39, "05");
    assert_eq!(resp.response_message, "Transaction Not Authorized");
    assert!(!state.authorized_transactions.contains(&"100002".to_string()));
}

#[test]
fn authorize_empty_pan_is_declined() {
    let mut state = AppState::new();
    let req = auth_request("0100", "", "100003");
    let resp = authorize(&mut state, &req);
    assert_eq!(resp.de39, "05");
    assert!(!state.authorized_transactions.contains(&"100003".to_string()));
}

#[test]
fn authorize_wrong_mti_is_rejected_and_not_stored() {
    let mut state = AppState::new();
    let req = auth_request("0200", "4111111111111111", "100004");
    let resp = authorize(&mut state, &req);
    assert_eq!(resp.mti, "0110");
    assert_eq!(resp.de39, "03");
    assert_eq!(resp.response_message, "Invalid MTI for Authorization Request");
    assert!(!state.authorized_transactions.contains(&"100004".to_string()));
}

#[test]
fn authorize_echoes_every_request_field() {
    let mut state = AppState::new();
    let req = auth_request("0100", "4111111111111111", "100005");
    let resp = authorize(&mut state, &req);
    assert_eq!(resp.de2, req.de2);
    assert_eq!(resp.de3, req.de3);
    assert_eq!(resp.de4, req.de4);
    assert_eq!(resp.de7, req.de7);
    assert_eq!(resp.de11, req.de11);
    assert_eq!(resp.de18, req.de18);
    assert_eq!(resp.de32, req.de32);
    assert_eq!(resp.de48, req.de48);
    assert_eq!(resp.de49, req.de49);
    assert_eq!(resp.de61, req.de61);
}

#[test]
fn reverse_known_stan_is_approved() {
    let mut state = AppState::new();
    let areq = auth_request("0100", "4111111111111111", "100001");
    let aresp = authorize(&mut state, &areq);
    assert_eq!(aresp.de39, "00");
    let rreq = reversal_request("0400", "100001");
    let rresp = reversal(&state, &rreq);
    assert_eq!(rresp.mti, "0410");
    assert_eq!(rresp.de39, "00");
    assert_eq!(rresp.response_message, "Reversal Approved");
}

#[test]
fn reverse_unknown_stan_is_declined() {
    let state = AppState::new();
    let rreq = reversal_request("0400", "999999");
    let rresp = reversal(&state, &rreq);
    assert_eq!(rresp.mti, "0410");
    assert_eq!(rresp.de39, "94");
    assert_eq!(rresp.response_message, "Duplicate Reversal or Original Not Found");
}

#[test]
fn reverse_wrong_mti_is_rejected() {
    let mut state = AppState::new();
    let areq = auth_request("0100", "4111111111111111", "100001");
    authorize(&mut state, &areq);
    let rreq = reversal_request("0100", "100001");
    let rresp = reversal(&state, &rreq);
    assert_eq!(rresp.de39, "03");
    assert_eq!(rresp.response_message, "Invalid MTI for Reversal Request");
}

#[test]
fn reverse_twice_is_idempotent() {
    let mut state = AppState::new();
    let areq = auth_request("0100", "4111111111111111", "100001");
    authorize(&mut state, &areq);
    let rreq = reversal_request("0400", "100001");
    let first = reversal(&state, &rreq);
    let second = reversal(&state, &rreq);
    assert_eq!(first.de39, "00");
    assert_eq!(second.de39, "00");
    assert_eq!(second.response_message, "Reversal Approved");
}

#[test]
fn reversal_echoes_every_request_field() {
    let state = AppState::new();
    let rreq = reversal_request("0400", "424242");
    let rresp = reversal(&state, &rreq);
    assert_eq!(rresp.de2, rreq.de2);
    assert_eq!(rresp.de3, rreq.de3);
    assert_eq!(rresp.de4, rreq.de4);
    assert_eq!(rresp.de7, rreq.de7);
    assert_eq!(rresp.de11, rreq.de11);
    assert_eq!(rresp.de18, rreq.de18);
    assert_eq!(rresp.de32, rreq.de32);
    assert_eq!(rresp.de48, rreq.de48);
    assert_eq!(rresp.de49, rreq.de49);
    assert_eq!(rresp.de61, rreq.de61);
    assert_eq!(rresp.de90, rreq.de90);
}

#[test]
fn declined_authorization_leaves_earlier_records_in_place() {
    let mut state = AppState::new();
    let approved = auth_request("0100", "4000001234567890", "200001");
    authorize(&mut state, &approved);
    let declined = auth_request("0100", "6011000000000004", "200002");
    let resp = authorize(&mut state, &declined);
    assert_eq!(resp.de39, "05");
    assert!(state.authorized_transactions.contains(&"200001".to_string()));
    assert!(!state.authorized_transactions.contains(&"200002".to_string()));
}
