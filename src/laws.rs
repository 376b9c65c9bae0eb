use vstd::prelude::*;
use crate::records::{RequestView, pending_status, completed_status};
use crate::store::{CommandView, StoreModel, apply, apply_all, dequeue, resolve, stage_of, status_of};
use crate::admission::{is_complete, submission_commands};
use crate::worker::{evaluation, request_verdict};

verus! {

/// Whether `c` writes the key of account `a`.
pub open spec fn writes_account(c: CommandView, a: Seq<char>) -> bool {
    match c {
        CommandView::SetAccount { account_id, pub_key } => account_id == a,
        _ => false,
    }
}

/// Whether `c` writes the status record of `tx`.
pub open spec fn writes_status(c: CommandView, tx: Seq<char>) -> bool {
    match c {
        CommandView::SetStatus { record } => record.transaction_id == tx,
        _ => false,
    }
}

/// Whether `c` acknowledges an entry of `worker`'s staging list.
pub open spec fn acknowledges(c: CommandView, worker: Seq<char>) -> bool {
    match c {
        CommandView::Acknowledge { worker: w } => w == worker,
        _ => false,
    }
}

/// Performing `a` then `b` is performing their concatenation.
pub proof fn lemma_apply_all_concat(m: StoreModel, a: Seq<CommandView>, b: Seq<CommandView>)
    ensures
        apply_all(m, a + b) == apply_all(apply_all(m, a), b),
    decreases a.len(),
{
    if a.len() == 0 {
        assert(a + b =~= b);
    } else {
        assert((a + b).drop_first() =~= a.drop_first() + b);
        lemma_apply_all_concat(apply(m, a[0]), a.drop_first(), b);
    }
}

/// Commands that do not write account `a` leave its key as it was.
pub proof fn lemma_account_frame(m: StoreModel, a: Seq<char>, cs: Seq<CommandView>)
    requires
        forall|i: int| 0 <= i < cs.len() ==> !writes_account(#[trigger] cs[i], a),
    ensures
        resolve(apply_all(m, cs), a) == resolve(m, a),
    decreases cs.len(),
{
    if cs.len() > 0 {
        assert(!writes_account(cs[0], a));
        let m1 = apply(m, cs[0]);
        assert(resolve(m1, a) == resolve(m, a));
        assert forall|i: int| 0 <= i < cs.drop_first().len() implies !writes_account(
            #[trigger] cs.drop_first()[i],
            a,
        ) by {
            assert(cs.drop_first()[i] == cs[i + 1]);
        }
        lemma_account_frame(m1, a, cs.drop_first());
    }
}

/// Commands that do not write the record of `tx` leave it as it was.
pub proof fn lemma_status_frame(m: StoreModel, tx: Seq<char>, cs: Seq<CommandView>)
    requires
        forall|i: int| 0 <= i < cs.len() ==> !writes_status(#[trigger] cs[i], tx),
    ensures
        status_of(apply_all(m, cs), tx) == status_of(m, tx),
    decreases cs.len(),
{
    if cs.len() > 0 {
        assert(!writes_status(cs[0], tx));
        let m1 = apply(m, cs[0]);
        assert(status_of(m1, tx) == status_of(m, tx));
        assert forall|i: int| 0 <= i < cs.drop_first().len() implies !writes_status(
            #[trigger] cs.drop_first()[i],
            tx,
        ) by {
            assert(cs.drop_first()[i] == cs[i + 1]);
        }
        lemma_status_frame(m1, tx, cs.drop_first());
    }
}

/// Commands that acknowledge nothing of `worker` leave its staging list as
/// it was.
pub proof fn lemma_stage_frame(m: StoreModel, worker: Seq<char>, cs: Seq<CommandView>)
    requires
        forall|i: int| 0 <= i < cs.len() ==> !acknowledges(#[trigger] cs[i], worker),
    ensures
        stage_of(apply_all(m, cs), worker) == stage_of(m, worker),
    decreases cs.len(),
{
    if cs.len() > 0 {
        assert(!acknowledges(cs[0], worker));
        let m1 = apply(m, cs[0]);
        assert(stage_of(m1, worker) == stage_of(m, worker));
        assert forall|i: int| 0 <= i < cs.drop_first().len() implies !acknowledges(
            #[trigger] cs.drop_first()[i],
            worker,
        ) by {
            assert(cs.drop_first()[i] == cs[i + 1]);
        }
        lemma_stage_frame(m1, worker, cs.drop_first());
    }
}

/// Last write wins: after account `a` is registered with `k1` and then with
/// `k2`, a submission for `a` resolves `k2`, whatever else that writes no key
/// of `a` happens afterwards; work queued before the second registration
/// keeps the key it was queued with.
pub proof fn law_last_registration_wins(
    m: StoreModel,
    a: Seq<char>,
    k1: Seq<char>,
    k2: Seq<char>,
    later: Seq<CommandView>,
)
    requires
        forall|i: int| 0 <= i < later.len() ==> !writes_account(#[trigger] later[i], a),
    ensures
        ({
            let m1 = apply(m, CommandView::SetAccount { account_id: a, pub_key: k1 });
            let m2 = apply(m1, CommandView::SetAccount { account_id: a, pub_key: k2 });
            &&& resolve(m1, a) == Some(k1)
            &&& resolve(apply_all(m2, later), a) == Some(k2)
            &&& m2.queue == m1.queue
        }),
{
    let m1 = apply(m, CommandView::SetAccount { account_id: a, pub_key: k1 });
    let m2 = apply(m1, CommandView::SetAccount { account_id: a, pub_key: k2 });
    lemma_account_frame(m2, a, later);
}

/// A submitted transaction stays pending (`complete` false, no `valid`) for
/// as long as nothing commits a record for it.
pub proof fn law_pending_until_committed(
    m: StoreModel,
    tx: Seq<char>,
    req: RequestView,
    pk: Seq<char>,
    later: Seq<CommandView>,
)
    requires
        forall|i: int| 0 <= i < later.len() ==> !writes_status(#[trigger] later[i], tx),
    ensures
        status_of(apply_all(m, submission_commands(tx, req, pk) + later), tx) == Some(
            pending_status(tx),
        ),
{
    let sub = submission_commands(tx, req, pk);
    lemma_apply_all_concat(m, sub, later);
    let m1 = apply_all(m, sub);
    let ma = apply(m, sub[0]);
    let mb = apply(ma, sub[1]);
    assert(sub.drop_first() =~= seq![sub[1]]);
    assert(seq![sub[1]].drop_first() =~= Seq::<CommandView>::empty());
    assert(apply_all(mb, Seq::<CommandView>::empty()) == mb);
    assert(apply_all(ma, seq![sub[1]]) == mb);
    assert(m1 == mb);
    assert(status_of(ma, tx) == Some(pending_status(tx)));
    assert(status_of(m1, tx) == Some(pending_status(tx)));
    lemma_status_frame(m1, tx, later);
}

/// Processing a well-formed entry (dequeue and stage, commit its verdict,
/// acknowledge) leaves the transaction complete with the signature check's
/// verdict and removes the entry from the worker's staging list.
pub proof fn law_processed_entry(m: StoreModel, worker: Seq<char>)
    requires
        m.queue.len() > 0,
        m.queue[0].well_formed(),
    ensures
        ({
            let req = m.queue[0];
            let tx = req.transaction_id.unwrap();
            let staged = dequeue(m, worker);
            let record = evaluation(Some(req)).unwrap();
            let committed = apply(staged, CommandView::SetStatus { record });
            let done = apply(committed, CommandView::Acknowledge { worker });
            &&& evaluation(Some(req)) is Some
            &&& record == completed_status(tx, request_verdict(req))
            &&& status_of(done, tx) == Some(completed_status(tx, request_verdict(req)))
            &&& stage_of(done, worker) == stage_of(m, worker)
            &&& done.queue == m.queue.drop_first()
            &&& !stage_of(m, worker).contains(req) ==> !stage_of(done, worker).contains(req)
            &&& !m.queue.drop_first().contains(req) ==> !done.queue.contains(req)
        }),
{
    let staged = dequeue(m, worker);
    assert(stage_of(staged, worker) == seq![m.queue[0]] + stage_of(m, worker));
    assert((seq![m.queue[0]] + stage_of(m, worker)).drop_first() =~= stage_of(m, worker));
}

/// Crash safety: once an entry is dequeued by `worker`, it sits at the head
/// of that worker's staging list and is gone from the global queue, other
/// workers' lists are untouched, and it stays staged through any commands
/// that acknowledge nothing of `worker`.
pub proof fn law_staged_until_acknowledged(
    m: StoreModel,
    worker: Seq<char>,
    other: Seq<char>,
    later: Seq<CommandView>,
)
    requires
        m.queue.len() > 0,
        other != worker,
        forall|i: int| 0 <= i < later.len() ==> !acknowledges(#[trigger] later[i], worker),
    ensures
        ({
            let staged = dequeue(m, worker);
            &&& staged.queue == m.queue.drop_first()
            &&& !m.queue.drop_first().contains(m.queue[0]) ==> !staged.queue.contains(m.queue[0])
            &&& stage_of(apply_all(staged, later), worker).contains(m.queue[0])
            &&& stage_of(staged, other) == stage_of(m, other)
            &&& stage_of(apply_all(staged, later), worker) == seq![m.queue[0]] + stage_of(
                m,
                worker,
            )
        }),
{
    let staged = dequeue(m, worker);
    lemma_stage_frame(staged, worker, later);
    assert((seq![m.queue[0]] + stage_of(m, worker))[0] == m.queue[0]);
}

/// No redelivery on the normal path: while an entry is neither in the global
/// queue nor in `other`'s staging list, a dequeue by `other` does not put it
/// there. So an entry staged by one worker never reaches another worker's
/// list through the atomic transfer.
pub proof fn law_entry_not_redelivered(m: StoreModel, other: Seq<char>, e: RequestView)
    requires
        !m.queue.contains(e),
        !stage_of(m, other).contains(e),
    ensures
        ({
            let next = dequeue(m, other);
            &&& !next.queue.contains(e)
            &&& !stage_of(next, other).contains(e)
        }),
{
    let next = dequeue(m, other);
    if m.queue.len() > 0 {
        assert(m.queue[0] != e);
        assert forall|i: int| 0 <= i < next.queue.len() implies next.queue[i] != e by {
            assert(next.queue[i] == m.queue[i + 1]);
        }
        let s = stage_of(next, other);
        assert forall|i: int| 0 <= i < s.len() implies s[i] != e by {
            if i > 0 {
                assert(s[i] == stage_of(m, other)[i - 1]);
            }
        }
    }
}

/// A committed verdict is final under the worker: processing any entry,
/// including a second copy of the same transaction, leaves a complete
/// record complete, since the worker only ever commits complete records.
pub proof fn law_worker_keeps_complete(m: StoreModel, worker: Seq<char>, tx: Seq<char>)
    requires
        m.queue.len() > 0,
        is_complete(status_of(m, tx)),
        evaluation(Some(m.queue[0])) is Some,
    ensures
        ({
            let staged = dequeue(m, worker);
            let record = evaluation(Some(m.queue[0])).unwrap();
            let done = apply(
                apply(staged, CommandView::SetStatus { record }),
                CommandView::Acknowledge { worker },
            );
            is_complete(status_of(done, tx))
        }),
{
}

} // verus!
