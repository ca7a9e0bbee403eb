use vstd::prelude::*;

use crate::messages::AuthorizationRequest;
use crate::messages::AuthorizationResponse;
use crate::messages::ReversalRequest;
use crate::messages::ReversalResponse;
use crate::store::AppState;
use crate::store::Transaction;
use crate::store::TransactionData;

verus! {

/// The approval rule: a PAN is approved exactly when its first character
/// is '4'.
pub open spec fn pan_approved(pan: Seq<char>) -> bool {
    pan.len() > 0 && pan[0] == '4'
}

/// The response code of an authorization: "03" for a wrong MTI, otherwise
/// "00" when the PAN is approved and "05" when it is not.
pub open spec fn auth_response_code(req: AuthorizationRequest) -> Seq<char> {
    if req.mti@ != "0100"@ {
        "03"@
    } else if pan_approved(req.de2@) {
        "00"@
    } else {
        "05"@
    }
}

/// The human-readable message that accompanies each authorization
/// response code.
pub open spec fn auth_response_message(req: AuthorizationRequest) -> Seq<char> {
    if req.mti@ != "0100"@ {
        "Invalid MTI for Authorization Request"@
    } else if pan_approved(req.de2@) {
        "Transaction Approved"@
    } else {
        "Transaction Not Authorized"@
    }
}

/// Whether an authorization request is approved and therefore recorded in
/// the store: right MTI and approved PAN.
pub open spec fn auth_stores(req: AuthorizationRequest) -> bool {
    req.mti@ == "0100"@ && pan_approved(req.de2@)
}

/// The record that an approved authorization stores under the request's
/// STAN: PAN, amount, STAN, timestamp, and response code "00".
pub open spec fn authorized_record(req: AuthorizationRequest) -> TransactionData {
    TransactionData {
        pan: req.de2@,
        amount: req.de4@,
        stan: req.de11@,
        timestamp: req.de7@,
        response_code: "00"@,
    }
}

/// Every data element of the authorization request appears unchanged in
/// the corresponding response field.
pub open spec fn auth_echoes(req: AuthorizationRequest, resp: AuthorizationResponse) -> bool {
    &&& resp.de2@ == req.de2@
    &&& resp.de3@ == req.de3@
    &&& resp.de4@ == req.de4@
    &&& resp.de7@ == req.de7@
    &&& resp.de11@ == req.de11@
    &&& resp.de18@ == req.de18@
    &&& resp.de32@ == req.de32@
    &&& resp.de48@ == req.de48@
    &&& resp.de49@ == req.de49@
    &&& resp.de61@ == req.de61@
}

/// The response code of a reversal against the store contents `m`: "03"
/// for a wrong MTI, otherwise "00" when the referenced STAN is present
/// and "94" when it is not.
pub open spec fn reversal_response_code(
    m: Map<Seq<char>, TransactionData>,
    req: ReversalRequest,
) -> Seq<char> {
    if req.mti@ != "0400"@ {
        "03"@
    } else if m.contains_key(req.de11@) {
        "00"@
    } else {
        "94"@
    }
}

/// The human-readable message that accompanies each reversal response
/// code.
pub open spec fn reversal_response_message(
    m: Map<Seq<char>, TransactionData>,
    req: ReversalRequest,
) -> Seq<char> {
    if req.mti@ != "0400"@ {
        "Invalid MTI for Reversal Request"@
    } else if m.contains_key(req.de11@) {
        "Reversal Approved"@
    } else {
        "Duplicate Reversal or Original Not Found"@
    }
}

/// Every data element of the reversal request that has a corresponding
/// response field appears there unchanged. The request's de22 has no
/// response counterpart, and the response's de39 carries the new response
/// code rather than an echo.
pub open spec fn reversal_echoes(req: ReversalRequest, resp: ReversalResponse) -> bool {
    &&& resp.de2@ == req.de2@
    &&& resp.de3@ == req.de3@
    &&& resp.de4@ == req.de4@
    &&& resp.de7@ == req.de7@
    &&& resp.de11@ == req.de11@
    &&& resp.de18@ == req.de18@
    &&& resp.de32@ == req.de32@
    &&& resp.de48@ == req.de48@
    &&& resp.de49@ == req.de49@
    &&& resp.de61@ == req.de61@
    &&& resp.de90@ == req.de90@
}

fn string_matches(s: &String, lit: &str) -> (r: bool)
    ensures
        r == (s@ == lit@),
{
    let owned: String = lit.to_owned();
    *s == owned
}

fn pan_starts_with_four(pan: &String) -> (r: bool)
    ensures
        r == pan_approved(pan@),
{
    let s = pan.as_str();
    if s.unicode_len() == 0 {
        false
    } else {
        s.get_char(0) == '4'
    }
}

/// Handles one authorization request atomically: validates the MTI,
/// applies the approval rule, records an approved transaction under the
/// request's STAN, and returns a response that echoes every request field.
pub fn authorize(state: &mut AppState, req: &AuthorizationRequest) -> (resp:
    AuthorizationResponse)
    ensures
        resp.mti@ == "0110"@,
        auth_echoes(*req, resp),
        resp.de39@ == auth_response_code(*req),
        resp.response_message@ == auth_response_message(*req),
        final(state).authorized_transactions@ == (if auth_stores(*req) {
            old(state).authorized_transactions@.insert(req.de11@, authorized_record(*req))
        } else {
            old(state).authorized_transactions@
        }),
{
    if !string_matches(&req.mti, "0100") {
        return AuthorizationResponse {
            mti: "0110".to_owned(),
            de2: req.de2.clone(),
            de3: req.de3.clone(),
            de4: req.de4.clone(),
            de7: req.de7.clone(),
            de11: req.de11.clone(),
            de18: req.de18.clone(),
            de32: req.de32.clone(),
            de39: "03".to_owned(),
            de48: req.de48.clone(),
            de49: req.de49.clone(),
            de61: req.de61.clone(),
            response_message: "Invalid MTI for Authorization Request".to_owned(),
        };
    }
    let approved = pan_starts_with_four(&req.de2);
    if approved {
        let tx = Transaction {
            pan: req.de2.clone(),
            amount: req.de4.clone(),
            stan: req.de11.clone(),
            timestamp: req.de7.clone(),
            response_code: "00".to_owned(),
        };
        state.authorized_transactions.put(req.de11.clone(), tx);
    }
    AuthorizationResponse {
        mti: "0110".to_owned(),
        de2: req.de2.clone(),
        de3: req.de3.clone(),
        de4: req.de4.clone(),
        de7: req.de7.clone(),
        de11: req.de11.clone(),
        de18: req.de18.clone(),
        de32: req.de32.clone(),
        de39: if approved {
            "00".to_owned()
        } else {
            "05".to_owned()
        },
        de48: req.de48.clone(),
        de49: req.de49.clone(),
        de61: req.de61.clone(),
        response_message: if approved {
            "Transaction Approved".to_owned()
        } else {
            "Transaction Not Authorized".to_owned()
        },
    }
}

/// Handles one reversal request atomically: validates the MTI, checks
/// whether the referenced STAN is stored, and returns a response that
/// echoes every request field. The store is read, never mutated: the
/// original record remains after a successful reversal.
pub fn reversal(state: &AppState, req: &ReversalRequest) -> (resp: ReversalResponse)
    ensures
        resp.mti@ == "0410"@,
        reversal_echoes(*req, resp),
        resp.de39@ == reversal_response_code(state.authorized_transactions@, *req),
        resp.response_message@ == reversal_response_message(state.authorized_transactions@, *req),
{
    if !string_matches(&req.mti, "0400") {
        return ReversalResponse {
            mti: "0410".to_owned(),
            de2: req.de2.clone(),
            de3: req.de3.clone(),
            de4: req.de4.clone(),
            de7: req.de7.clone(),
            de11: req.de11.clone(),
            de18: req.de18.clone(),
            de32: req.de32.clone(),
            de39: "03".to_owned(),
            de48: req.de48.clone(),
            de49: req.de49.clone(),
            de61: req.de61.clone(),
            de90: req.de90.clone(),
            response_message: "Invalid MTI for Reversal Request".to_owned(),
        };
    }
    let found = state.authorized_transactions.contains(&req.de11);
    ReversalResponse {
        mti: "0410".to_owned(),
        de2: req.de2.clone(),
        de3: req.de3.clone(),
        de4: req.de4.clone(),
        de7: req.de7.clone(),
        de11: req.de11.clone(),
        de18: req.de18.clone(),
        de32: req.de32.clone(),
        de39: if found {
            "00".to_owned()
        } else {
            "94".to_owned()
        },
        de48: req.de48.clone(),
        de49: req.de49.clone(),
        de61: req.de61.clone(),
        de90: req.de90.clone(),
        response_message: if found {
            "Reversal Approved".to_owned()
        } else {
            "Duplicate Reversal or Original Not Found".to_owned()
        },
    }
}

/// Law: a reversal whose STAN was stored by an approved authorization is
/// approved. After an authorization that stores a record, any reversal
/// with the right MTI that references the same STAN receives response
/// code "00", whatever else the store holds.
pub proof fn lemma_authorize_then_reverse(
    m: Map<Seq<char>, TransactionData>,
    areq: AuthorizationRequest,
    rreq: ReversalRequest,
)
    requires
        auth_stores(areq),
        rreq.mti@ == "0400"@,
        rreq.de11@ == areq.de11@,
    ensures
        reversal_response_code(m.insert(areq.de11@, authorized_record(areq)), rreq) == "00"@,
{
}

/// Law: reversal is idempotent. A reversal never mutates the store, so
/// when a reversal of a present STAN yields "00", the same request issued
/// again against the same store yields "00" again.
pub proof fn lemma_reversal_idempotent(m: Map<Seq<char>, TransactionData>, req: ReversalRequest)
    requires
        req.mti@ == "0400"@,
        m.contains_key(req.de11@),
    ensures
        reversal_response_code(m, req) == "00"@,
{
}

} // verus!
