use vstd::prelude::*;
use crate::records::{VerificationRequest, VerificationResponse, RequestView, StatusView};

verus! {

/// The identity of a worker instance; it scopes the worker's staging list.
#[derive(Clone, Debug)]
pub struct WorkerId {
    pub name: String,
}

/// Name of the staging list of the worker called `name`.
pub open spec fn stage_key_spec(name: Seq<char>) -> Seq<char> {
    "stack:"@ + name + ":verification_request_dlq"@
}

impl WorkerId {
    /// The store key of this worker's staging list.
    pub fn stage_key(&self) -> (r: String)
        ensures
            r@ == stage_key_spec(self.name@),
    {
        let prefix = String::from_str("stack:");
        let with_name = prefix.concat(self.name.as_str());
        with_name.concat(":verification_request_dlq")
    }
}

/// A write that the admission API or the worker asks the store to perform.
#[derive(Clone, Debug)]
pub enum Command {
    /// `SET accountId publicKey`.
    SetAccount { account_id: String, pub_key: String },
    /// `SET transactionId record`.
    SetStatus { record: VerificationResponse },
    /// Push onto the tail of the global work queue.
    Enqueue { request: VerificationRequest },
    /// Remove the head of the worker's staging list.
    Acknowledge { worker: WorkerId },
}

/// Mathematical form of a store command.
pub enum CommandView {
    SetAccount { account_id: Seq<char>, pub_key: Seq<char> },
    SetStatus { record: StatusView },
    Enqueue { request: RequestView },
    Acknowledge { worker: Seq<char> },
}

impl View for Command {
    type V = CommandView;

    open spec fn view(&self) -> CommandView {
        match self {
            Command::SetAccount { account_id, pub_key } => CommandView::SetAccount {
                account_id: account_id@,
                pub_key: pub_key@,
            },
            Command::SetStatus { record } => CommandView::SetStatus { record: record@ },
            Command::Enqueue { request } => CommandView::Enqueue { request: request@ },
            Command::Acknowledge { worker } => CommandView::Acknowledge { worker: worker.name@ },
        }
    }
}

/// The durable state of the store: account keys, status records, the global
/// FIFO work queue (front first) and one staging list per worker (most
/// recently staged first).
pub struct StoreModel {
    pub accounts: Map<Seq<char>, Seq<char>>,
    pub statuses: Map<Seq<char>, StatusView>,
    pub queue: Seq<RequestView>,
    pub stages: Map<Seq<char>, Seq<RequestView>>,
}

/// The staging list of `worker`; an absent list is empty.
pub open spec fn stage_of(m: StoreModel, worker: Seq<char>) -> Seq<RequestView> {
    if m.stages.contains_key(worker) {
        m.stages[worker]
    } else {
        Seq::empty()
    }
}

/// The public key that a submission for `account_id` resolves.
pub open spec fn resolve(m: StoreModel, account_id: Seq<char>) -> Option<Seq<char>> {
    if m.accounts.contains_key(account_id) {
        Some(m.accounts[account_id])
    } else {
        None
    }
}

/// The status record of `tx`, if one was written.
pub open spec fn status_of(m: StoreModel, tx: Seq<char>) -> Option<StatusView> {
    if m.statuses.contains_key(tx) {
        Some(m.statuses[tx])
    } else {
        None
    }
}

/// The effect of one command on the store.
pub open spec fn apply(m: StoreModel, c: CommandView) -> StoreModel {
    match c {
        CommandView::SetAccount { account_id, pub_key } => StoreModel {
            accounts: m.accounts.insert(account_id, pub_key),
            ..m
        },
        CommandView::SetStatus { record } => StoreModel {
            statuses: m.statuses.insert(record.transaction_id, record),
            ..m
        },
        CommandView::Enqueue { request } => StoreModel { queue: m.queue.push(request), ..m },
        CommandView::Acknowledge { worker } => if stage_of(m, worker).len() > 0 {
            StoreModel { stages: m.stages.insert(worker, stage_of(m, worker).drop_first()), ..m }
        } else {
            m
        },
    }
}

/// The effect of a sequence of commands, performed in order.
pub open spec fn apply_all(m: StoreModel, cs: Seq<CommandView>) -> StoreModel
    decreases cs.len(),
{
    if cs.len() == 0 {
        m
    } else {
        apply_all(apply(m, cs[0]), cs.drop_first())
    }
}

/// The atomic dequeue-and-stage transfer: the head of the global queue moves
/// onto the head of `worker`'s staging list. With an empty queue the store
/// waits, and nothing changes.
pub open spec fn dequeue(m: StoreModel, worker: Seq<char>) -> StoreModel {
    if m.queue.len() > 0 {
        StoreModel {
            queue: m.queue.drop_first(),
            stages: m.stages.insert(worker, seq![m.queue[0]] + stage_of(m, worker)),
            ..m
        }
    } else {
        m
    }
}

} // verus!
