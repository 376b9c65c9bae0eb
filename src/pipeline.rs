use vstd::prelude::*;
use crate::admission::{
    AdmissionError, commands_view, is_complete, register, submission_commands, verification_status,
    verify_signature,
};
use crate::laws::lemma_apply_all_concat;
use crate::memory::MemoryStore;
use crate::records::{RegistrationRequest, VerificationRequest, VerificationResponse};
use crate::store::{Command, CommandView, WorkerId, apply, apply_all, dequeue, resolve, status_of};
use crate::worker::{acknowledgement, evaluation, opt_status_view, process_entry};

verus! {

/// Performs `commands` in order.
pub fn perform_all(store: &mut MemoryStore, commands: Vec<Command>)
    requires
        old(store).wf(),
    ensures
        final(store).wf(),
        final(store)@ == apply_all(old(store)@, commands_view(commands@)),
{
    let ghost cv = commands_view(commands@);
    let ghost orig = commands@;
    let ghost start = store@;
    let mut commands = commands;
    let n: usize = commands.len();
    let mut i: usize = 0;
    while commands.len() > 0
        invariant
            store.wf(),
            cv == commands_view(orig),
            i + commands@.len() == orig.len(),
            orig.len() == n,
            commands@ == orig.subrange(i as int, orig.len() as int),
            store@ == apply_all(start, cv.subrange(0, i as int)),
        decreases commands@.len(),
    {
        let ghost before = store@;
        let c = commands.remove(0);
        proof {
            assert(c == orig[i as int]);
            assert(c@ == cv[i as int]);
            lemma_apply_all_concat(start, cv.subrange(0, i as int), seq![cv[i as int]]);
            assert(cv.subrange(0, i as int) + seq![cv[i as int]] =~= cv.subrange(0, i + 1));
            assert(seq![cv[i as int]].drop_first() =~= Seq::<CommandView>::empty());
        }
        store.perform(c);
        proof {
            let x = cv[i as int];
            assert(apply_all(apply(before, x), Seq::<CommandView>::empty()) == apply(before, x));
            assert(apply_all(before, seq![x]) == apply(before, x));
            assert(commands@ =~= orig.subrange(i + 1, orig.len() as int));
        }
        i = i + 1;
    }
    assert(cv.subrange(0, cv.len() as int) =~= cv);
}

/// Registers `request`'s key for `account_id`, replacing any earlier key.
pub fn register_account(store: &mut MemoryStore, account_id: String, request: RegistrationRequest)
    requires
        old(store).wf(),
    ensures
        final(store).wf(),
        final(store)@ == apply(
            old(store)@,
            CommandView::SetAccount { account_id: account_id@, pub_key: request.pub_key@ },
        ),
{
    let c = register(account_id, request);
    store.perform(c);
}

/// Submits `request` for `account_id` under `transaction_id`: refused for
/// an unknown account, and for a transaction whose verdict is already
/// committed, with the store unchanged either way; otherwise the pending
/// record is written and the request queued with the account's key.
pub fn submit(
    store: &mut MemoryStore,
    account_id: &String,
    transaction_id: String,
    request: VerificationRequest,
) -> (r: Result<(), AdmissionError>)
    requires
        old(store).wf(),
    ensures
        final(store).wf(),
        match resolve(old(store)@, account_id@) {
            None => r == Err::<(), AdmissionError>(AdmissionError::UnknownAccount) && final(store)@
                == old(store)@,
            Some(pk) => if is_complete(status_of(old(store)@, transaction_id@)) {
                r == Err::<(), AdmissionError>(AdmissionError::AlreadyComplete) && final(store)@
                    == old(store)@
            } else {
                r is Ok && final(store)@ == apply_all(
                    old(store)@,
                    submission_commands(transaction_id@, request@, pk),
                )
            },
        },
        is_complete(status_of(old(store)@, transaction_id@)) ==> status_of(
            final(store)@,
            transaction_id@,
        ) == status_of(old(store)@, transaction_id@),
{
    let resolved = store.get_pub_key(account_id);
    let existing = store.get_status(&transaction_id);
    match verify_signature(transaction_id, request, resolved, existing) {
        Ok(commands) => {
            perform_all(store, commands);
            Ok(())
        },
        Err(e) => Err(e),
    }
}

/// The status record of `transaction_id`, or `NotFound`.
pub fn status(store: &MemoryStore, transaction_id: &String) -> (r: Result<
    VerificationResponse,
    AdmissionError,
>)
    requires
        store.wf(),
    ensures
        match status_of(store@, transaction_id@) {
            Some(s) => r is Ok && r.unwrap()@ == s,
            None => r == Err::<VerificationResponse, AdmissionError>(AdmissionError::NotFound),
        },
{
    verification_status(store.get_status(transaction_id))
}

/// One pass of the worker: dequeue and stage the oldest entry, evaluate it,
/// commit its terminal record and acknowledge it. Returns the committed
/// record; `None` where the queue is empty (nothing changes) or the entry is
/// passed over (it stays staged).
pub fn process_next(store: &mut MemoryStore, worker: &WorkerId) -> (r: Option<VerificationResponse>)
    requires
        old(store).wf(),
    ensures
        final(store).wf(),
        old(store)@.queue.len() == 0 ==> r is None && final(store)@ == old(store)@,
        old(store)@.queue.len() > 0 ==> {
            let staged = dequeue(old(store)@, worker.name@);
            match evaluation(Some(old(store)@.queue[0])) {
                None => r is None && final(store)@ == staged,
                Some(record) => opt_status_view(r) == Some(record) && final(store)@ == apply(
                    apply(staged, CommandView::SetStatus { record }),
                    CommandView::Acknowledge { worker: worker.name@ },
                ),
            }
        },
{
    let entry = store.dequeue_to_stage(worker);
    if entry.is_none() {
        return None;
    }
    match process_entry(entry) {
        None => None,
        Some(record) => {
            let out = record.duplicate();
            store.perform(Command::SetStatus { record });
            if let Some(ack) = acknowledgement(worker, true) {
                store.perform(ack);
            }
            Some(out)
        },
    }
}

} // verus!
