use vstd::prelude::*;
use vstd::utf8::encode_utf8;
use crate::crypto::{verdict_spec, verify_text};
use crate::records::{VerificationRequest, VerificationResponse, RequestView, StatusView, completed_status};
use crate::store::{Command, CommandView, WorkerId};

verus! {

/// The verdict on a well-formed request: the signature check over the UTF-8
/// bytes of its signature, payload and public key.
pub open spec fn request_verdict(req: RequestView) -> bool {
    verdict_spec(
        encode_utf8(req.signature),
        encode_utf8(req.payload),
        encode_utf8(req.pub_key.unwrap()),
    )
}

/// The record that the worker commits for a staged entry; `None` where the
/// entry could not be decoded or lacks its transaction or key, and is
/// passed over.
pub open spec fn evaluation(entry: Option<RequestView>) -> Option<StatusView> {
    match entry {
        Some(req) => if req.well_formed() {
            Some(completed_status(req.transaction_id.unwrap(), request_verdict(req)))
        } else {
            None
        },
        None => None,
    }
}

pub open spec fn opt_request_view(o: Option<VerificationRequest>) -> Option<RequestView> {
    match o {
        Some(r) => Some(r@),
        None => None,
    }
}

pub open spec fn opt_status_view(o: Option<VerificationResponse>) -> Option<StatusView> {
    match o {
        Some(r) => Some(r@),
        None => None,
    }
}

/// Evaluates a staged entry, `None` where decoding it failed: the terminal
/// record to commit, or `None` where the entry is passed over.
pub fn process_entry(entry: Option<VerificationRequest>) -> (r: Option<VerificationResponse>)
    ensures
        opt_status_view(r) == evaluation(opt_request_view(entry)),
{
    match entry {
        None => None,
        Some(req) => match (req.transaction_id, req.pub_key) {
            (Some(transaction_id), Some(pub_key)) => {
                let valid = verify_text(
                    req.signature.as_str(),
                    req.payload.as_str(),
                    pub_key.as_str(),
                );
                Some(VerificationResponse::completed(transaction_id, valid))
            },
            _ => None,
        },
    }
}

/// What follows a commit: the staged entry is acknowledged only where the
/// terminal record was written.
pub fn acknowledgement(worker: &WorkerId, committed: bool) -> (r: Option<Command>)
    ensures
        committed <==> r is Some,
        committed ==> r.unwrap()@ == (CommandView::Acknowledge { worker: worker.name@ }),
{
    if committed {
        Some(Command::Acknowledge { worker: WorkerId { name: worker.name.clone() } })
    } else {
        None
    }
}

} // verus!
