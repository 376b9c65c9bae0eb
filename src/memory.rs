use vstd::prelude::*;
use crate::records::{VerificationRequest, VerificationResponse, RequestView, opt_view};
use crate::store::{Command, StoreModel, WorkerId, apply, dequeue, resolve, stage_of, status_of};
use crate::worker::opt_status_view;

verus! {

/// The views of a list of requests, in order.
pub open spec fn requests_view(v: Seq<VerificationRequest>) -> Seq<RequestView> {
    v.map_values(|r: VerificationRequest| r@)
}

fn copy_requests(v: &Vec<VerificationRequest>) -> (r: Vec<VerificationRequest>)
    ensures
        requests_view(r@) == requests_view(v@),
{
    let mut r: Vec<VerificationRequest> = Vec::new();
    let mut i: usize = 0;
    while i < v.len()
        invariant
            i <= v@.len(),
            r@.len() == i,
            requests_view(r@) == requests_view(v@.subrange(0, i as int)),
        decreases v@.len() - i,
    {
        let ghost before = r@;
        r.push(v[i].duplicate());
        proof {
            let prefix = v@.subrange(0, i + 1);
            assert forall|j: int| 0 <= j < r@.len() implies #[trigger] requests_view(r@)[j]
                == requests_view(prefix)[j] by {
                if j < i {
                    assert(r@[j] == before[j]);
                    assert(requests_view(before)[j] == requests_view(v@.subrange(0, i as int))[j]);
                }
            }
            assert(requests_view(r@) =~= requests_view(prefix));
        }
        i = i + 1;
    }
    assert(v@.subrange(0, v@.len() as int) =~= v@);
    r
}

/// A store held in process memory that performs every command as the store
/// contract describes: one entry per account, per transaction and per
/// worker, a FIFO work queue and a staging list per worker.
pub struct MemoryStore {
    accounts: Vec<(String, String)>,
    statuses: Vec<VerificationResponse>,
    queue: Vec<VerificationRequest>,
    stages: Vec<(String, Vec<VerificationRequest>)>,
    model: Ghost<StoreModel>,
}

impl View for MemoryStore {
    type V = StoreModel;

    closed spec fn view(&self) -> StoreModel {
        self.model@
    }
}

impl MemoryStore {
    spec fn accounts_wf(&self) -> bool {
        let a = self.accounts@;
        let m = self.model@.accounts;
        &&& forall|i: int, j: int| 0 <= i < j < a.len() ==> a[i].0@ != a[j].0@
        &&& forall|i: int|
            0 <= i < a.len() ==> m.contains_key(#[trigger] a[i].0@) && m[a[i].0@] == a[i].1@
        &&& forall|k: Seq<char>| #[trigger]
            m.contains_key(k) ==> exists|i: int| 0 <= i < a.len() && a[i].0@ == k
    }

    spec fn statuses_wf(&self) -> bool {
        let s = self.statuses@;
        let m = self.model@.statuses;
        &&& forall|i: int, j: int|
            0 <= i < j < s.len() ==> s[i].transaction_id@ != s[j].transaction_id@
        &&& forall|i: int|
            0 <= i < s.len() ==> m.contains_key(#[trigger] s[i].transaction_id@) && m[s[i].transaction_id@]
                == s[i]@
        &&& forall|k: Seq<char>| #[trigger]
            m.contains_key(k) ==> exists|i: int| 0 <= i < s.len() && s[i].transaction_id@ == k
    }

    spec fn stages_wf(&self) -> bool {
        let s = self.stages@;
        let m = self.model@.stages;
        &&& forall|i: int, j: int| 0 <= i < j < s.len() ==> s[i].0@ != s[j].0@
        &&& forall|i: int|
            0 <= i < s.len() ==> m.contains_key(#[trigger] s[i].0@) && m[s[i].0@] == requests_view(
                s[i].1@,
            )
        &&& forall|k: Seq<char>| #[trigger]
            m.contains_key(k) ==> exists|i: int| 0 <= i < s.len() && s[i].0@ == k
    }

    /// The lists behind the store agree with its model.
    pub closed spec fn wf(&self) -> bool {
        &&& self.accounts_wf()
        &&& self.statuses_wf()
        &&& self.stages_wf()
        &&& self.model@.queue == requests_view(self.queue@)
    }

    /// An empty store.
    pub fn new() -> (r: Self)
        ensures
            r.wf(),
            r@.accounts == Map::<Seq<char>, Seq<char>>::empty(),
            r@.statuses.is_empty(),
            r@.queue.len() == 0,
            r@.stages.is_empty(),
    {
        let r = MemoryStore {
            accounts: Vec::new(),
            statuses: Vec::new(),
            queue: Vec::new(),
            stages: Vec::new(),
            model: Ghost(
                StoreModel {
                    accounts: Map::empty(),
                    statuses: Map::empty(),
                    queue: Seq::empty(),
                    stages: Map::empty(),
                },
            ),
        };
        assert(r.model@.queue =~= requests_view(r.queue@));
        r
    }

    fn find_account(&self, account_id: &String) -> (r: Option<usize>)
        ensures
            match r {
                Some(i) => i < self.accounts@.len() && self.accounts@[i as int].0@ == account_id@,
                None => forall|i: int|
                    0 <= i < self.accounts@.len() ==> self.accounts@[i].0@ != account_id@,
            },
    {
        let mut i: usize = 0;
        while i < self.accounts.len()
            invariant
                i <= self.accounts@.len(),
                forall|j: int| 0 <= j < i ==> self.accounts@[j].0@ != account_id@,
            decreases self.accounts@.len() - i,
        {
            if self.accounts[i].0 == *account_id {
                return Some(i);
            }
            i = i + 1;
        }
        None
    }

    /// The key registered for `account_id`, if any.
    pub fn get_pub_key(&self, account_id: &String) -> (r: Option<String>)
        requires
            self.wf(),
        ensures
            opt_view(r) == resolve(self@, account_id@),
    {
        match self.find_account(account_id) {
            Some(i) => Some(self.accounts[i].1.clone()),
            None => None,
        }
    }

    fn find_status(&self, transaction_id: &String) -> (r: Option<usize>)
        ensures
            match r {
                Some(i) => i < self.statuses@.len() && self.statuses@[i as int].transaction_id@
                    == transaction_id@,
                None => forall|i: int|
                    0 <= i < self.statuses@.len() ==> self.statuses@[i].transaction_id@
                        != transaction_id@,
            },
    {
        let mut i: usize = 0;
        while i < self.statuses.len()
            invariant
                i <= self.statuses@.len(),
                forall|j: int| 0 <= j < i ==> self.statuses@[j].transaction_id@ != transaction_id@,
            decreases self.statuses@.len() - i,
        {
            if self.statuses[i].transaction_id == *transaction_id {
                return Some(i);
            }
            i = i + 1;
        }
        None
    }

    fn find_stage(&self, worker: &String) -> (r: Option<usize>)
        ensures
            match r {
                Some(i) => i < self.stages@.len() && self.stages@[i as int].0@ == worker@,
                None => forall|i: int|
                    0 <= i < self.stages@.len() ==> self.stages@[i].0@ != worker@,
            },
    {
        let mut i: usize = 0;
        while i < self.stages.len()
            invariant
                i <= self.stages@.len(),
                forall|j: int| 0 <= j < i ==> self.stages@[j].0@ != worker@,
            decreases self.stages@.len() - i,
        {
            if self.stages[i].0 == *worker {
                return Some(i);
            }
            i = i + 1;
        }
        None
    }

    /// The status record of `transaction_id`, if one was written.
    pub fn get_status(&self, transaction_id: &String) -> (r: Option<VerificationResponse>)
        requires
            self.wf(),
        ensures
            opt_status_view(r) == status_of(self@, transaction_id@),
    {
        match self.find_status(transaction_id) {
            Some(i) => Some(self.statuses[i].duplicate()),
            None => None,
        }
    }

    /// How many entries `worker` has staged and not yet acknowledged.
    pub fn staged_len(&self, worker: &WorkerId) -> (r: usize)
        requires
            self.wf(),
        ensures
            r == stage_of(self@, worker.name@).len(),
    {
        match self.find_stage(&worker.name) {
            Some(i) => self.stages[i].1.len(),
            None => 0,
        }
    }

    /// How many entries wait in the global queue.
    pub fn queued_len(&self) -> (r: usize)
        requires
            self.wf(),
        ensures
            r == self@.queue.len(),
    {
        self.queue.len()
    }

    fn set_account(&mut self, account_id: String, pub_key: String)
        requires
            old(self).wf(),
        ensures
            final(self).wf(),
            final(self)@ == (StoreModel {
                accounts: old(self)@.accounts.insert(account_id@, pub_key@),
                ..old(self)@
            }),
    {
        let ghost old_model = self.model@;
        let ghost old_list = self.accounts@;
        let ghost a = account_id@;
        let ghost k = pub_key@;
        let idx: usize = match self.find_account(&account_id) {
            Some(i) => {
                self.accounts.remove(i);
                self.accounts.insert(i, (account_id, pub_key));
                assert(self.accounts@ =~= old_list.update(i as int, self.accounts@[i as int]));
                i
            },
            None => {
                self.accounts.push((account_id, pub_key));
                (self.accounts.len() - 1) as usize
            },
        };
        self.model = Ghost(StoreModel { accounts: old_model.accounts.insert(a, k), ..old_model });
        let ghost list = self.accounts@;
        assert(list[idx as int].0@ == a && list[idx as int].1@ == k);
        assert forall|i: int| 0 <= i < list.len() && i != idx implies list[i] == old_list[i]
            && old_list[i].0@ != a by {}
        assert forall|kk: Seq<char>| #[trigger]
            self.model@.accounts.contains_key(kk) implies exists|i: int|
            0 <= i < list.len() && list[i].0@ == kk by {
            if kk != a {
                let j = choose|j: int| 0 <= j < old_list.len() && old_list[j].0@ == kk;
                assert(list[j] == old_list[j]);
            } else {
                assert(list[idx as int].0@ == kk);
            }
        }
        assert forall|i: int, j: int| 0 <= i < j < list.len() implies list[i].0@ != list[j].0@ by {
            if i != idx && j != idx {
                assert(old_list[i].0@ != old_list[j].0@);
            }
        }
        assert forall|i: int| 0 <= i < list.len() implies self.model@.accounts.contains_key(
            #[trigger] list[i].0@,
        ) && self.model@.accounts[list[i].0@] == list[i].1@ by {
            if i != idx {
                assert(old_model.accounts.contains_key(old_list[i].0@));
            }
        }
        assert(self.accounts_wf());
        assert(self.statuses_wf());
        assert(self.stages@ == old(self).stages@ && self.model@.stages == old(self).model@.stages);
        assert(old(self).stages_wf());
        assert(self.stages_wf());
    }

    fn set_status(&mut self, record: VerificationResponse)
        requires
            old(self).wf(),
        ensures
            final(self).wf(),
            final(self)@ == (StoreModel {
                statuses: old(self)@.statuses.insert(record.transaction_id@, record@),
                ..old(self)@
            }),
    {
        let ghost old_model = self.model@;
        let ghost old_list = self.statuses@;
        let ghost a = record.transaction_id@;
        let ghost k = record@;
        let idx: usize = match self.find_status(&record.transaction_id) {
            Some(i) => {
                self.statuses.remove(i);
                self.statuses.insert(i, record);
                assert(self.statuses@ =~= old_list.update(i as int, self.statuses@[i as int]));
                i
            },
            None => {
                self.statuses.push(record);
                (self.statuses.len() - 1) as usize
            },
        };
        self.model = Ghost(StoreModel { statuses: old_model.statuses.insert(a, k), ..old_model });
        let ghost list = self.statuses@;
        assert(list[idx as int].transaction_id@ == a && list[idx as int]@ == k);
        assert forall|i: int| 0 <= i < list.len() && i != idx implies list[i] == old_list[i]
            && old_list[i].transaction_id@ != a by {}
        assert forall|kk: Seq<char>| #[trigger]
            self.model@.statuses.contains_key(kk) implies exists|i: int|
            0 <= i < list.len() && list[i].transaction_id@ == kk by {
            if kk != a {
                let j = choose|j: int| 0 <= j < old_list.len() && old_list[j].transaction_id@ == kk;
                assert(list[j] == old_list[j]);
            } else {
                assert(list[idx as int].transaction_id@ == kk);
            }
        }
        assert forall|i: int, j: int| 0 <= i < j < list.len() implies list[i].transaction_id@ != list[j].transaction_id@ by {
            if i != idx && j != idx {
                assert(old_list[i].transaction_id@ != old_list[j].transaction_id@);
            }
        }
        assert forall|i: int| 0 <= i < list.len() implies self.model@.statuses.contains_key(
            #[trigger] list[i].transaction_id@,
        ) && self.model@.statuses[list[i].transaction_id@] == list[i]@ by {
            if i != idx {
                assert(old_model.statuses.contains_key(old_list[i].transaction_id@));
            }
        }
        assert(self.statuses_wf());
        assert(self.stages@ == old(self).stages@ && self.model@.stages == old(self).model@.stages);
        assert(old(self).stages_wf());
        assert(self.stages_wf());
        assert(self.accounts@ == old(self).accounts@ && self.model@.accounts == old(self).model@.accounts);
        assert(old(self).accounts_wf());
        assert(self.accounts_wf());
    }

    fn set_stage(&mut self, worker: String, list: Vec<VerificationRequest>)
        requires
            old(self).wf(),
        ensures
            final(self).wf(),
            final(self)@ == (StoreModel {
                stages: old(self)@.stages.insert(worker@, requests_view(list@)),
                ..old(self)@
            }),
    {
        let ghost old_model = self.model@;
        let ghost old_list = self.stages@;
        let ghost a = worker@;
        let ghost k = requests_view(list@);
        let idx: usize = match self.find_stage(&worker) {
            Some(i) => {
                self.stages.remove(i);
                self.stages.insert(i, (worker, list));
                assert(self.stages@ =~= old_list.update(i as int, self.stages@[i as int]));
                i
            },
            None => {
                self.stages.push((worker, list));
                (self.stages.len() - 1) as usize
            },
        };
        self.model = Ghost(StoreModel { stages: old_model.stages.insert(a, k), ..old_model });
        let ghost list = self.stages@;
        assert(list[idx as int].0@ == a && requests_view(list[idx as int].1@) == k);
        assert forall|i: int| 0 <= i < list.len() && i != idx implies list[i] == old_list[i]
            && old_list[i].0@ != a by {}
        assert forall|kk: Seq<char>| #[trigger]
            self.model@.stages.contains_key(kk) implies exists|i: int|
            0 <= i < list.len() && list[i].0@ == kk by {
            if kk != a {
                let j = choose|j: int| 0 <= j < old_list.len() && old_list[j].0@ == kk;
                assert(list[j] == old_list[j]);
            } else {
                assert(list[idx as int].0@ == kk);
            }
        }
        assert forall|i: int, j: int| 0 <= i < j < list.len() implies list[i].0@ != list[j].0@ by {
            if i != idx && j != idx {
                assert(old_list[i].0@ != old_list[j].0@);
            }
        }
        assert forall|i: int| 0 <= i < list.len() implies self.model@.stages.contains_key(
            #[trigger] list[i].0@,
        ) && self.model@.stages[list[i].0@] == requests_view(list[i].1@) by {
            if i != idx {
                assert(old_model.stages.contains_key(old_list[i].0@));
            }
        }
        assert(self.statuses_wf());
        assert(self.statuses@ == old(self).statuses@ && self.model@.statuses == old(self).model@.statuses);
        assert(self.accounts@ == old(self).accounts@ && self.model@.accounts == old(self).model@.accounts);
        assert(old(self).accounts_wf());
        assert(self.accounts_wf());
        assert(old(self).statuses_wf());
    }

    fn enqueue(&mut self, request: VerificationRequest)
        requires
            old(self).wf(),
        ensures
            final(self).wf(),
            final(self)@ == (StoreModel { queue: old(self)@.queue.push(request@), ..old(self)@ }),
    {
        let ghost old_model = self.model@;
        let ghost req = request@;
        self.queue.push(request);
        self.model = Ghost(StoreModel { queue: old_model.queue.push(req), ..old_model });
        assert(self.model@.queue =~= requests_view(self.queue@));
        assert(self.accounts@ == old(self).accounts@ && self.model@.accounts == old(self).model@.accounts);
        assert(self.statuses@ == old(self).statuses@ && self.model@.statuses == old(self).model@.statuses);
        assert(self.stages@ == old(self).stages@ && self.model@.stages == old(self).model@.stages);
        assert(old(self).accounts_wf() && old(self).statuses_wf() && old(self).stages_wf());
        assert(self.accounts_wf() && self.statuses_wf() && self.stages_wf());
    }

    fn acknowledge(&mut self, worker: &WorkerId)
        requires
            old(self).wf(),
        ensures
            final(self).wf(),
            final(self)@ == apply(
                old(self)@,
                crate::store::CommandView::Acknowledge { worker: worker.name@ },
            ),
    {
        match self.find_stage(&worker.name) {
            Some(i) => {
                if self.stages[i].1.len() > 0 {
                    let mut list = copy_requests(&self.stages[i].1);
                    list.remove(0);
                    assert(requests_view(list@) =~= stage_of(self@, worker.name@).drop_first());
                    self.set_stage(worker.name.clone(), list);
                } else {
                    assert(stage_of(self@, worker.name@).len() == 0);
                }
            },
            None => {
                assert(!self@.stages.contains_key(worker.name@));
            },
        }
    }

    /// The atomic dequeue-and-stage transfer: moves the head of the queue
    /// onto the head of `worker`'s staging list and hands it out; `None`
    /// where the queue is empty, and nothing changes.
    pub fn dequeue_to_stage(&mut self, worker: &WorkerId) -> (r: Option<VerificationRequest>)
        requires
            old(self).wf(),
        ensures
            final(self).wf(),
            final(self)@ == dequeue(old(self)@, worker.name@),
            r is Some <==> old(self)@.queue.len() > 0,
            r is Some ==> r.unwrap()@ == old(self)@.queue[0],
    {
        if self.queue.len() == 0 {
            return None;
        }
        let ghost old_model = self.model@;
        let item = self.queue.remove(0);
        self.model = Ghost(StoreModel { queue: old_model.queue.drop_first(), ..old_model });
        assert(self.model@.queue =~= requests_view(self.queue@));
        assert(self.accounts@ == old(self).accounts@ && self.model@.accounts == old(self).model@.accounts);
        assert(self.statuses@ == old(self).statuses@ && self.model@.statuses == old(self).model@.statuses);
        assert(self.stages@ == old(self).stages@ && self.model@.stages == old(self).model@.stages);
        assert(old(self).accounts_wf() && old(self).statuses_wf() && old(self).stages_wf());
        assert(self.accounts_wf() && self.statuses_wf() && self.stages_wf());
        let mut list = match self.find_stage(&worker.name) {
            Some(i) => copy_requests(&self.stages[i].1),
            None => Vec::new(),
        };
        assert(requests_view(list@) =~= stage_of(old_model, worker.name@));
        let out = item.duplicate();
        list.insert(0, item);
        assert(requests_view(list@) =~= seq![old_model.queue[0]] + stage_of(old_model, worker.name@));
        self.set_stage(worker.name.clone(), list);
        Some(out)
    }

    /// Performs one command.
    pub fn perform(&mut self, command: Command)
        requires
            old(self).wf(),
        ensures
            final(self).wf(),
            final(self)@ == apply(old(self)@, command@),
    {
        match command {
            Command::SetAccount { account_id, pub_key } => self.set_account(account_id, pub_key),
            Command::SetStatus { record } => self.set_status(record),
            Command::Enqueue { request } => self.enqueue(request),
            Command::Acknowledge { worker } => self.acknowledge(&worker),
        }
    }
}

} // verus!
