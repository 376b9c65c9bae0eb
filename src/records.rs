use vstd::prelude::*;

verus! {

/// Body of a registration: the public key to bind to an account.
#[derive(Clone, Debug)]
pub struct RegistrationRequest {
    pub pub_key: String,
}

/// A signature to check. On the wire from a client it carries only
/// `payload` and `signature`; admission fills in the transaction and the
/// public key resolved from the account before the request is queued.
#[derive(Clone, Debug)]
pub struct VerificationRequest {
    pub payload: String,
    pub signature: String,
    pub transaction_id: Option<String>,
    pub pub_key: Option<String>,
}

/// The status record of a transaction. `valid` is present exactly when
/// `complete` holds.
#[derive(Clone, Debug)]
pub struct VerificationResponse {
    pub transaction_id: String,
    pub complete: bool,
    pub valid: Option<bool>,
}

/// Mathematical form of a queued request.
pub struct RequestView {
    pub payload: Seq<char>,
    pub signature: Seq<char>,
    pub transaction_id: Option<Seq<char>>,
    pub pub_key: Option<Seq<char>>,
}

/// Mathematical form of a status record.
pub struct StatusView {
    pub transaction_id: Seq<char>,
    pub complete: bool,
    pub valid: Option<bool>,
}

pub open spec fn opt_view(o: Option<String>) -> Option<Seq<char>> {
    match o {
        Some(s) => Some(s@),
        None => None,
    }
}

impl View for VerificationRequest {
    type V = RequestView;

    open spec fn view(&self) -> RequestView {
        RequestView {
            payload: self.payload@,
            signature: self.signature@,
            transaction_id: opt_view(self.transaction_id),
            pub_key: opt_view(self.pub_key),
        }
    }
}

impl View for VerificationResponse {
    type V = StatusView;

    open spec fn view(&self) -> StatusView {
        StatusView { transaction_id: self.transaction_id@, complete: self.complete, valid: self.valid }
    }
}

/// The record written at submission, before any verdict exists.
pub open spec fn pending_status(tx: Seq<char>) -> StatusView {
    StatusView { transaction_id: tx, complete: false, valid: None }
}

/// The terminal record that the worker commits.
pub open spec fn completed_status(tx: Seq<char>, valid: bool) -> StatusView {
    StatusView { transaction_id: tx, complete: true, valid: Some(valid) }
}

impl StatusView {
    /// `valid` is present exactly once the record is complete.
    pub open spec fn wf(self) -> bool {
        self.complete <==> self.valid is Some
    }
}

impl RequestView {
    /// A queued request that the worker can act on.
    pub open spec fn well_formed(self) -> bool {
        self.transaction_id is Some && self.pub_key is Some
    }
}

fn clone_opt(o: &Option<String>) -> (r: Option<String>)
    ensures
        r == *o,
{
    match o {
        Some(s) => Some(s.clone()),
        None => None,
    }
}

impl VerificationRequest {
    /// The placeholder request: empty payload and signature, no transaction
    /// and no key, so that the worker discards it.
    pub fn new() -> (r: Self)
        ensures
            r@.payload.len() == 0,
            r@.signature.len() == 0,
            r.transaction_id is None,
            r.pub_key is None,
            !r@.well_formed(),
    {
        VerificationRequest {
            payload: String::new(),
            signature: String::new(),
            transaction_id: None,
            pub_key: None,
        }
    }

    /// A copy of this request with every field kept.
    pub fn duplicate(&self) -> (r: Self)
        ensures
            r@ == self@,
    {
        VerificationRequest {
            payload: self.payload.clone(),
            signature: self.signature.clone(),
            transaction_id: clone_opt(&self.transaction_id),
            pub_key: clone_opt(&self.pub_key),
        }
    }
}

impl VerificationResponse {
    /// The pending record of `transaction_id`.
    pub fn pending(transaction_id: String) -> (r: Self)
        ensures
            r@ == pending_status(transaction_id@),
    {
        VerificationResponse { transaction_id, complete: false, valid: None }
    }

    /// The terminal record of `transaction_id` with verdict `valid`.
    pub fn completed(transaction_id: String, valid: bool) -> (r: Self)
        ensures
            r@ == completed_status(transaction_id@, valid),
    {
        VerificationResponse { transaction_id, complete: true, valid: Some(valid) }
    }

    /// A copy of this record with every field kept.
    pub fn duplicate(&self) -> (r: Self)
        ensures
            r@ == self@,
    {
        VerificationResponse {
            transaction_id: self.transaction_id.clone(),
            complete: self.complete,
            valid: self.valid,
        }
    }
}

} // verus!
