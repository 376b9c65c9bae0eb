use vstd::prelude::*;
use crate::records::{
    RegistrationRequest, VerificationRequest, VerificationResponse, RequestView, StatusView,
    pending_status,
};
use crate::store::{Command, CommandView};
use crate::worker::opt_status_view;

verus! {

/// Why the admission API refuses a request.
#[derive(Clone, Copy, Debug, PartialEq, Eq, Structural)]
pub enum AdmissionError {
    /// A submission names an account with no registered key.
    UnknownAccount,
    /// A status query names a transaction with no record.
    NotFound,
    /// A submission names a transaction whose verdict is already committed;
    /// that record is final.
    AlreadyComplete,
}

/// Whether `record` is a committed, final status record.
pub open spec fn is_complete(record: Option<StatusView>) -> bool {
    record is Some && record.unwrap().complete
}

/// The views of a list of commands, in order.
pub open spec fn commands_view(cs: Seq<Command>) -> Seq<CommandView> {
    cs.map_values(|c: Command| c@)
}

/// The request that goes on the queue: the client's payload and signature,
/// bound to the transaction and to the key resolved at submission.
pub open spec fn queued_request(req: RequestView, tx: Seq<char>, pk: Seq<char>) -> RequestView {
    RequestView {
        payload: req.payload,
        signature: req.signature,
        transaction_id: Some(tx),
        pub_key: Some(pk),
    }
}

/// The writes of an accepted submission: the pending record first, then the
/// queued request.
pub open spec fn submission_commands(tx: Seq<char>, req: RequestView, pk: Seq<char>) -> Seq<
    CommandView,
> {
    seq![
        CommandView::SetStatus { record: pending_status(tx) },
        CommandView::Enqueue { request: queued_request(req, tx, pk) },
    ]
}

/// Registration: the write that binds `account_id` to the key of `request`,
/// replacing any earlier key.
pub fn register(account_id: String, request: RegistrationRequest) -> (r: Command)
    ensures
        r@ == (CommandView::SetAccount { account_id: account_id@, pub_key: request.pub_key@ }),
{
    Command::SetAccount { account_id, pub_key: request.pub_key }
}

/// Submission of `request` under `transaction_id`, where `resolved_key` is
/// what the store holds for the account and `existing` the transaction's
/// current status record. An unknown account is refused; so is a
/// transaction whose verdict is already committed, since that record must
/// not return to pending. Otherwise the pending record and the queued
/// request are to be written, in that order.
pub fn verify_signature(
    transaction_id: String,
    request: VerificationRequest,
    resolved_key: Option<String>,
    existing: Option<VerificationResponse>,
) -> (r: Result<Vec<Command>, AdmissionError>)
    ensures
        match r {
            Ok(cs) => resolved_key is Some && !is_complete(opt_status_view(existing))
                && commands_view(cs@) == submission_commands(
                transaction_id@,
                request@,
                resolved_key.unwrap()@,
            ),
            Err(e) => (resolved_key is None && e == AdmissionError::UnknownAccount) || (
            resolved_key is Some && is_complete(opt_status_view(existing)) && e
                == AdmissionError::AlreadyComplete),
        },
        is_complete(opt_status_view(existing)) ==> r is Err,
{
    match resolved_key {
        None => Err(AdmissionError::UnknownAccount),
        Some(pub_key) => {
            let done = match &existing {
                Some(record) => record.complete,
                None => false,
            };
            if done {
                return Err(AdmissionError::AlreadyComplete);
            }
            let pending = VerificationResponse::pending(transaction_id.clone());
            let queued = VerificationRequest {
                payload: request.payload,
                signature: request.signature,
                transaction_id: Some(transaction_id),
                pub_key: Some(pub_key),
            };
            let mut cs: Vec<Command> = Vec::new();
            cs.push(Command::SetStatus { record: pending });
            cs.push(Command::Enqueue { request: queued });
            proof {
                assert(commands_view(cs@) =~= submission_commands(
                    transaction_id@,
                    request@,
                    resolved_key.unwrap()@,
                ));
            }
            Ok(cs)
        },
    }
}

/// A status query: the stored record verbatim, or `NotFound` where the
/// transaction has none.
pub fn verification_status(record: Option<VerificationResponse>) -> (r: Result<
    VerificationResponse,
    AdmissionError,
>)
    ensures
        match r {
            Ok(v) => record is Some && v == record.unwrap(),
            Err(e) => record is None && e == AdmissionError::NotFound,
        },
{
    match record {
        Some(v) => Ok(v),
        None => Err(AdmissionError::NotFound),
    }
}

} // verus!
