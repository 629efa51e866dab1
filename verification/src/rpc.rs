//! The service: six operations over the two tables.
//!
//! What each operation does is stated on `Tables`, without reference to
//! statements or replies. `RpcImpl` then performs each operation as an
//! exchange with a `Store`, and is proved to do exactly what is stated.

use vstd::prelude::*;

use crate::digest::{names_sha2_256, sha2_256_multihash};
use crate::fault::Fault;
use crate::model::{Profile, ProfileId, ProfileView, Task, TaskId, TaskView};
use crate::protocol::{
    create_profile_statement,
    create_task_statement,
    created_profile,
    created_task,
    fetch_profile_statement,
    fetch_task_statement,
    fetched_profile,
    fetched_task,
    list_profiles_statement,
    list_tasks_statement,
    listed_profiles,
    listed_tasks,
    listing,
    optional_profile,
    outcome,
};
use crate::store::{Store, Tables};
use crate::wire::{optional_text, Reply, Statement, StatementView};

verus! {

impl Tables {
    /// Every stored digest is the content address of the payload stored
    /// beside it.
    pub open spec fn intact(self) -> bool {
        forall|k: int| 0 <= k < self.tasks.len() ==> (#[trigger] self.tasks[k]).intact()
    }

    /// Creating a profile: refused with `Conflict` where the name is taken,
    /// whatever the base and the document; else the profile is added under
    /// the next identifier, which is returned.
    pub open spec fn create_profile(self, base: Seq<char>, name: Seq<char>, json: Seq<char>) -> (
        Tables,
        Result<int, Fault>,
    ) {
        if self.name_taken(name) {
            (self, Err(Fault::Conflict))
        } else if self.profiles_full() {
            (self, Err(Fault::StoreUnavailable))
        } else {
            (self.with_profile(base, name, json), Ok(self.next_profile_id()))
        }
    }

    /// Enumerating profiles: the identifiers of all profiles, or of those
    /// with the given base, in the order of their creation.
    pub open spec fn list_profiles(self, by_base: Option<Seq<char>>) -> Result<Seq<int>, Fault> {
        Ok(self.profile_ids(by_base))
    }

    /// Looking a profile up: the whole record, or `NotFound`.
    pub open spec fn fetch_profile(self, id: int) -> Result<ProfileView, Fault> {
        if self.has_profile(id) {
            Ok(self.profile(id))
        } else {
            Err(Fault::NotFound)
        }
    }

    /// Creating a task: refused with `NotFound` where the profile is not
    /// there; else the task is added under the next identifier, with the
    /// content address of its payload as its digest.
    pub open spec fn create_task(self, profile: int, file_name: Seq<char>, data: Seq<u8>) -> (
        Tables,
        Result<int, Fault>,
    ) {
        if !self.has_profile(profile) {
            (self, Err(Fault::NotFound))
        } else if self.tasks_full() {
            (self, Err(Fault::StoreUnavailable))
        } else {
            (
                self.with_task(profile, file_name, data, sha2_256_multihash(data)),
                Ok(self.next_task_id()),
            )
        }
    }

    /// Enumerating tasks: the identifiers of all tasks, or of those of the
    /// given profile, in the order of their creation.
    pub open spec fn list_tasks(self, by_profile: Option<int>) -> Result<Seq<int>, Fault> {
        Ok(self.task_ids(by_profile))
    }

    /// Looking a task up: the whole record, or `NotFound`.
    pub open spec fn fetch_task(self, id: int) -> Result<TaskView, Fault> {
        if self.has_task(id) {
            Ok(self.task(id))
        } else {
            Err(Fault::NotFound)
        }
    }
}

/// The remote operations of the service, by the names under which they are
/// called.
pub trait Rpc {
    /// `create_profile`: a new profile under a name that is not taken.
    fn create_profile(&mut self, base_name: String, name: String, json: String) -> Result<
        ProfileId,
        Fault,
    >;

    /// `list_profiles`: the identifiers of all profiles, or of those of one
    /// base.
    fn list_profiles(&mut self, by_base: Option<String>) -> Result<Vec<ProfileId>, Fault>;

    /// `fetch_profile`: the whole record of one profile.
    fn fetch_profile(&mut self, id: ProfileId) -> Result<Profile, Fault>;

    /// `create_task`: a new task against a profile that is there.
    fn create_task(&mut self, profile: ProfileId, file_name: String, data: Vec<u8>) -> Result<
        TaskId,
        Fault,
    >;

    /// `list_tasks`: the identifiers of all tasks, or of those of one
    /// profile.
    fn list_tasks(&mut self, by_profile: Option<ProfileId>) -> Result<Vec<TaskId>, Fault>;

    /// `fetch_task`: the whole record of one task, payload and digest
    /// included.
    fn fetch_task(&mut self, id: TaskId) -> Result<Task, Fault>;
}

/// The service over tables held in memory.
///
/// At every moment the tables obey their rules, and every stored digest is
/// the content address of the payload stored beside it.
pub struct RpcImpl {
    store: Store,
}

impl View for RpcImpl {
    type V = Tables;

    closed spec fn view(&self) -> Tables {
        self.store@
    }
}

impl RpcImpl {
    #[verifier::type_invariant]
    spec fn valid(&self) -> bool {
        self.store@.intact()
    }

    /// A service with both tables empty.
    pub fn new() -> (service: RpcImpl)
        ensures
            service@ == Tables::empty(),
    {
        RpcImpl { store: Store::new() }
    }

    /// One exchange with the store. A task may only be inserted with the
    /// content address of its payload as its digest.
    fn exchange(&mut self, statement: Statement) -> (reply: Reply)
        requires
            statement@ matches StatementView::InsertTask { data, digest, .. } ==> digest
                == sha2_256_multihash(data) && names_sha2_256(digest),
        ensures
            old(self)@.wf(),
            old(self)@.intact(),
            final(self)@.wf(),
            final(self)@.intact(),
            (final(self)@, reply@) == old(self)@.execute(statement@),
    {
        proof {
            use_type_invariant(&*self);
        }
        // The store is taken out for the exchange and put back after it, so
        // that the service is whole at every moment.
        let mut taken = RpcImpl::new();
        core::mem::swap(self, &mut taken);
        let RpcImpl { mut store } = taken;
        let reply = store.execute(statement);
        *self = RpcImpl { store };
        reply
    }
}

impl Rpc for RpcImpl {
    /// Creates a profile, unless its name is taken.
    fn create_profile(&mut self, base_name: String, name: String, json: String) -> (created: Result<
        ProfileId,
        Fault,
    >)
        ensures
            old(self)@.wf() && old(self)@.intact(),
            final(self)@.wf() && final(self)@.intact(),
            (final(self)@, outcome(created)) == old(self)@.create_profile(base_name@, name@, json@),
    {
        let reply = self.exchange(create_profile_statement(base_name, name, json));
        created_profile(reply)
    }

    /// Enumerates the profiles, all of them or those of one base.
    fn list_profiles(&mut self, by_base: Option<String>) -> (listed: Result<Vec<ProfileId>, Fault>)
        ensures
            old(self)@.wf() && old(self)@.intact(),
            final(self)@ == old(self)@,
            listing(listed) == old(self)@.list_profiles(optional_text(by_base)),
    {
        let reply = self.exchange(list_profiles_statement(by_base));
        listed_profiles(reply)
    }

    /// Looks one profile up.
    fn fetch_profile(&mut self, id: ProfileId) -> (fetched: Result<Profile, Fault>)
        ensures
            old(self)@.wf() && old(self)@.intact(),
            final(self)@ == old(self)@,
            outcome(fetched) == old(self)@.fetch_profile(id@),
    {
        let reply = self.exchange(fetch_profile_statement(id));
        fetched_profile(reply)
    }

    /// Creates a task against a profile, unless the profile is not there.
    /// The profile is resolved before the insert is planned.
    fn create_task(&mut self, profile: ProfileId, file_name: String, data: Vec<u8>) -> (created: Result<
        TaskId,
        Fault,
    >)
        ensures
            old(self)@.wf() && old(self)@.intact(),
            final(self)@.wf() && final(self)@.intact(),
            (final(self)@, outcome(created)) == old(self)@.create_task(profile@, file_name@, data@),
    {
        let resolved = self.exchange(fetch_profile_statement(profile));
        match create_task_statement(resolved, file_name, data) {
            Ok(statement) => {
                let reply = self.exchange(statement);
                created_task(reply)
            },
            Err(fault) => Err(fault),
        }
    }

    /// Enumerates the tasks, all of them or those of one profile.
    fn list_tasks(&mut self, by_profile: Option<ProfileId>) -> (listed: Result<Vec<TaskId>, Fault>)
        ensures
            old(self)@.wf() && old(self)@.intact(),
            final(self)@ == old(self)@,
            listing(listed) == old(self)@.list_tasks(optional_profile(by_profile)),
    {
        let reply = self.exchange(list_tasks_statement(by_profile));
        listed_tasks(reply)
    }

    /// Looks one task up.
    fn fetch_task(&mut self, id: TaskId) -> (fetched: Result<Task, Fault>)
        ensures
            old(self)@.wf() && old(self)@.intact(),
            final(self)@ == old(self)@,
            outcome(fetched) == old(self)@.fetch_task(id@),
    {
        let reply = self.exchange(fetch_task_statement(id));
        fetched_task(reply)
    }
}

} // verus!
