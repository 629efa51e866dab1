//! The two tables and their rules.
//!
//! `Tables` is the relational model: what the tables hold, which states are
//! valid, and what each statement does to them. `Store` keeps the tables in
//! memory and executes statements exactly as the model says.

use vstd::prelude::*;

use crate::model::{Profile, ProfileId, ProfileView, Task, TaskId, TaskView};
use crate::wire::{
    id_values,
    optional_int,
    optional_text,
    profile_views,
    task_views,
    Reply,
    ReplyView,
    Statement,
    StatementView,
};

verus! {

/// The greatest identifier that a table can assign.
pub open spec fn id_limit() -> int {
    i64::MAX as int
}

/// Whether a profile passes the filter of an enumeration: every profile
/// passes the absent filter, and a given base passes its own.
pub open spec fn in_base(by_base: Option<Seq<char>>) -> spec_fn(ProfileView) -> bool {
    |row: ProfileView| by_base is None || by_base == Some(row.base)
}

/// Whether a task passes the filter of an enumeration.
pub open spec fn of_profile(by_profile: Option<int>) -> spec_fn(TaskView) -> bool {
    |row: TaskView| by_profile is None || by_profile == Some(row.profile_id)
}

/// The identifier of a profile row.
pub open spec fn profile_id() -> spec_fn(ProfileView) -> int {
    |row: ProfileView| row.id
}

/// The identifier of a task row.
pub open spec fn task_id() -> spec_fn(TaskView) -> int {
    |row: TaskView| row.id
}

/// The identifiers of the rows that pass the filter, in the order of the rows.
pub open spec fn profile_ids_among(rows: Seq<ProfileView>, by_base: Option<Seq<char>>) -> Seq<int> {
    rows.filter(in_base(by_base)).map_values(profile_id())
}

/// The identifiers of the rows that pass the filter, in the order of the rows.
pub open spec fn task_ids_among(rows: Seq<TaskView>, by_profile: Option<int>) -> Seq<int> {
    rows.filter(of_profile(by_profile)).map_values(task_id())
}

/// The contents of the two tables, rows in the order of their insertion.
pub struct Tables {
    pub profiles: Seq<ProfileView>,
    pub tasks: Seq<TaskView>,
}

impl Tables {
    pub open spec fn empty() -> Tables {
        Tables { profiles: Seq::empty(), tasks: Seq::empty() }
    }

    /// The rules that every reachable state of the tables obeys.
    ///
    /// Identifiers are handed out as 1, 2, 3, ... in the order of insertion
    /// and rows never leave, so the row with identifier `n` is the `n`-th
    /// row. No two profiles share a name. Every task refers to a profile
    /// that is there.
    pub open spec fn wf(self) -> bool {
        &&& self.profiles.len() <= id_limit()
        &&& self.tasks.len() <= id_limit()
        &&& forall|i: int| 0 <= i < self.profiles.len() ==> (#[trigger] self.profiles[i]).id == i + 1
        &&& forall|i: int, j: int|
            0 <= i < j < self.profiles.len() ==> (#[trigger] self.profiles[i]).name != (
            #[trigger] self.profiles[j]).name
        &&& forall|k: int| 0 <= k < self.tasks.len() ==> (#[trigger] self.tasks[k]).id == k + 1
        &&& forall|k: int|
            0 <= k < self.tasks.len() ==> self.has_profile((#[trigger] self.tasks[k]).profile_id)
    }

    pub open spec fn has_profile(self, id: int) -> bool {
        1 <= id <= self.profiles.len()
    }

    /// The profile with identifier `id`, where there is one.
    pub open spec fn profile(self, id: int) -> ProfileView
        recommends
            self.has_profile(id),
    {
        self.profiles[id - 1]
    }

    pub open spec fn has_task(self, id: int) -> bool {
        1 <= id <= self.tasks.len()
    }

    /// The task with identifier `id`, where there is one.
    pub open spec fn task(self, id: int) -> TaskView
        recommends
            self.has_task(id),
    {
        self.tasks[id - 1]
    }

    pub open spec fn name_taken(self, name: Seq<char>) -> bool {
        exists|i: int| 0 <= i < self.profiles.len() && (#[trigger] self.profiles[i]).name == name
    }

    /// No identifier is left for another profile.
    pub open spec fn profiles_full(self) -> bool {
        self.profiles.len() >= id_limit()
    }

    /// No identifier is left for another task.
    pub open spec fn tasks_full(self) -> bool {
        self.tasks.len() >= id_limit()
    }

    /// The identifier that the next profile gets.
    pub open spec fn next_profile_id(self) -> int {
        self.profiles.len() as int + 1
    }

    /// The identifier that the next task gets.
    pub open spec fn next_task_id(self) -> int {
        self.tasks.len() as int + 1
    }

    /// The tables with one more profile, which gets the next identifier.
    pub open spec fn with_profile(self, base: Seq<char>, name: Seq<char>, json: Seq<char>) -> Tables {
        Tables {
            profiles: self.profiles.push(
                ProfileView { id: self.next_profile_id(), base, name, json },
            ),
            tasks: self.tasks,
        }
    }

    /// The tables with one more task, which gets the next identifier.
    pub open spec fn with_task(
        self,
        profile_id: int,
        file_name: Seq<char>,
        data: Seq<u8>,
        digest: Seq<u8>,
    ) -> Tables {
        Tables {
            profiles: self.profiles,
            tasks: self.tasks.push(
                TaskView { id: self.next_task_id(), profile_id, file_name, data, digest },
            ),
        }
    }

    pub open spec fn profile_ids(self, by_base: Option<Seq<char>>) -> Seq<int> {
        profile_ids_among(self.profiles, by_base)
    }

    pub open spec fn task_ids(self, by_profile: Option<int>) -> Seq<int> {
        task_ids_among(self.tasks, by_profile)
    }

    /// The rows of `profiles` with identifier `id`: one or none.
    pub open spec fn profile_rows(self, id: int) -> Seq<ProfileView> {
        if self.has_profile(id) {
            seq![self.profile(id)]
        } else {
            seq![]
        }
    }

    /// The rows of `tasks` with identifier `id`: one or none.
    pub open spec fn task_rows(self, id: int) -> Seq<TaskView> {
        if self.has_task(id) {
            seq![self.task(id)]
        } else {
            seq![]
        }
    }

    /// What a statement does: the tables after it, and the reply.
    ///
    /// An insert that a rule forbids leaves the tables as they were. The
    /// name of a profile must be new; the profile of a task must be there.
    /// A table that has handed out its last identifier takes no further row.
    pub open spec fn execute(self, statement: StatementView) -> (Tables, ReplyView) {
        match statement {
            StatementView::InsertProfile { base, name, json } => {
                if self.name_taken(name) {
                    (self, ReplyView::UniqueViolation)
                } else if self.profiles_full() {
                    (self, ReplyView::Unavailable)
                } else {
                    (
                        self.with_profile(base, name, json),
                        ReplyView::Ids(seq![self.next_profile_id()]),
                    )
                }
            },
            StatementView::SelectProfileIds { by_base } => (
                self,
                ReplyView::Ids(self.profile_ids(by_base)),
            ),
            StatementView::SelectProfile { id } => (self, ReplyView::Profiles(self.profile_rows(id))),
            StatementView::InsertTask { profile_id, file_name, data, digest } => {
                if !self.has_profile(profile_id) {
                    (self, ReplyView::ForeignKeyViolation)
                } else if self.tasks_full() {
                    (self, ReplyView::Unavailable)
                } else {
                    (
                        self.with_task(profile_id, file_name, data, digest),
                        ReplyView::Ids(seq![self.next_task_id()]),
                    )
                }
            },
            StatementView::SelectTaskIds { by_profile } => (
                self,
                ReplyView::Ids(self.task_ids(by_profile)),
            ),
            StatementView::SelectTask { id } => (self, ReplyView::Tasks(self.task_rows(id))),
        }
    }
}

/// Taking one more row into account adds its identifier if the row passes
/// the filter, and nothing otherwise.
pub proof fn lemma_profile_ids_step(rows: Seq<ProfileView>, by_base: Option<Seq<char>>, n: int)
    requires
        0 <= n < rows.len(),
    ensures
        profile_ids_among(rows.take(n + 1), by_base) == if in_base(by_base)(rows[n]) {
            profile_ids_among(rows.take(n), by_base).push(rows[n].id)
        } else {
            profile_ids_among(rows.take(n), by_base)
        },
{
    assert(rows.take(n + 1) =~= rows.take(n).push(rows[n]));
    rows.take(n).lemma_filter_push(rows[n], in_base(by_base));
    assert(rows.take(n).filter(in_base(by_base)).push(rows[n]).map_values(profile_id())
        =~= rows.take(n).filter(in_base(by_base)).map_values(profile_id()).push(rows[n].id));
}

/// Taking one more row into account adds its identifier if the row passes
/// the filter, and nothing otherwise.
pub proof fn lemma_task_ids_step(rows: Seq<TaskView>, by_profile: Option<int>, n: int)
    requires
        0 <= n < rows.len(),
    ensures
        task_ids_among(rows.take(n + 1), by_profile) == if of_profile(by_profile)(rows[n]) {
            task_ids_among(rows.take(n), by_profile).push(rows[n].id)
        } else {
            task_ids_among(rows.take(n), by_profile)
        },
{
    assert(rows.take(n + 1) =~= rows.take(n).push(rows[n]));
    rows.take(n).lemma_filter_push(rows[n], of_profile(by_profile));
    assert(rows.take(n).filter(of_profile(by_profile)).push(rows[n]).map_values(task_id())
        =~= rows.take(n).filter(of_profile(by_profile)).map_values(task_id()).push(rows[n].id));
}

/// The two tables, held in memory. At every moment they obey the rules of
/// `Tables::wf`.
pub struct Store {
    profiles: Vec<Profile>,
    tasks: Vec<Task>,
}

impl View for Store {
    type V = Tables;

    closed spec fn view(&self) -> Tables {
        Tables { profiles: profile_views(self.profiles@), tasks: task_views(self.tasks@) }
    }
}

impl Store {
    #[verifier::type_invariant]
    spec fn valid(&self) -> bool {
        self@.wf()
    }

    /// Both tables, empty.
    pub fn new() -> (store: Store)
        ensures
            store@ == Tables::empty(),
    {
        let store = Store { profiles: Vec::new(), tasks: Vec::new() };
        assert(store@.profiles =~= Seq::empty());
        assert(store@.tasks =~= Seq::empty());
        store
    }

    /// Whether a profile has this name.
    fn name_taken(&self, name: &String) -> (taken: bool)
        ensures
            taken == self@.name_taken(name@),
    {
        let mut i: usize = 0;
        while i < self.profiles.len()
            invariant
                i <= self.profiles@.len(),
                forall|k: int| 0 <= k < i ==> (#[trigger] self@.profiles[k]).name != name@,
            decreases self.profiles@.len() - i,
        {
            if self.profiles[i].name == *name {
                assert(self@.profiles[i as int].name == name@);
                return true;
            }
            i = i + 1;
        }
        false
    }

    /// The identifiers of the profiles that pass the filter.
    fn select_profile_ids(&self, by_base: &Option<String>) -> (ids: Vec<i64>)
        ensures
            id_values(ids@) == self@.profile_ids(optional_text(*by_base)),
    {
        let ghost filter = optional_text(*by_base);
        let mut ids: Vec<i64> = Vec::new();
        let mut i: usize = 0;
        assert(self@.profiles.take(0).filter(in_base(filter)) =~= Seq::empty()) by {
            reveal(Seq::filter);
        }
        while i < self.profiles.len()
            invariant
                i <= self.profiles@.len(),
                filter == optional_text(*by_base),
                id_values(ids@) == profile_ids_among(self@.profiles.take(i as int), filter),
            decreases self.profiles@.len() - i,
        {
            let row = &self.profiles[i];
            let passes = match by_base {
                Some(base) => row.base == *base,
                None => true,
            };
            proof {
                lemma_profile_ids_step(self@.profiles, filter, i as int);
            }
            if passes {
                ids.push(row.id.0);
            }
            i = i + 1;
        }
        assert(self@.profiles.take(i as int) =~= self@.profiles);
        ids
    }

    /// The identifiers of the tasks that pass the filter.
    fn select_task_ids(&self, by_profile: Option<i64>) -> (ids: Vec<i64>)
        ensures
            id_values(ids@) == self@.task_ids(optional_int(by_profile)),
    {
        let ghost filter = optional_int(by_profile);
        let mut ids: Vec<i64> = Vec::new();
        let mut i: usize = 0;
        assert(self@.tasks.take(0).filter(of_profile(filter)) =~= Seq::empty()) by {
            reveal(Seq::filter);
        }
        while i < self.tasks.len()
            invariant
                i <= self.tasks@.len(),
                filter == optional_int(by_profile),
                id_values(ids@) == task_ids_among(self@.tasks.take(i as int), filter),
            decreases self.tasks@.len() - i,
        {
            let row = &self.tasks[i];
            let passes = match by_profile {
                Some(profile) => row.profile_id.0 == profile,
                None => true,
            };
            proof {
                lemma_task_ids_step(self@.tasks, filter, i as int);
            }
            if passes {
                ids.push(row.id.0);
            }
            i = i + 1;
        }
        assert(self@.tasks.take(i as int) =~= self@.tasks);
        ids
    }

    /// The profile with this identifier, as one row or none.
    fn select_profile(&self, id: i64) -> (rows: Vec<Profile>)
        ensures
            profile_views(rows@) == self@.profile_rows(id as int),
    {
        let mut rows: Vec<Profile> = Vec::new();
        if 1 <= id && id as u64 <= self.profiles.len() as u64 {
            let row = self.profiles[(id - 1) as usize].clone();
            rows.push(row);
        }
        rows
    }

    /// The task with this identifier, as one row or none.
    fn select_task(&self, id: i64) -> (rows: Vec<Task>)
        ensures
            task_views(rows@) == self@.task_rows(id as int),
    {
        let mut rows: Vec<Task> = Vec::new();
        if 1 <= id && id as u64 <= self.tasks.len() as u64 {
            let row = self.tasks[(id - 1) as usize].clone();
            rows.push(row);
        }
        rows
    }

    /// Adds a profile, unless its name is taken or the table is full.
    fn insert_profile(&mut self, base: String, name: String, json: String) -> (reply: Reply)
        ensures
            (final(self)@, reply@) == old(self)@.execute(
                StatementView::InsertProfile { base: base@, name: name@, json: json@ },
            ),
    {
        proof {
            use_type_invariant(&*self);
        }
        if self.name_taken(&name) {
            return Reply::UniqueViolation;
        }
        if self.profiles.len() as u64 >= i64::MAX as u64 {
            return Reply::Unavailable;
        }
        let id: i64 = self.profiles.len() as i64 + 1;
        let row = Profile { id: ProfileId(id), base, name, json };
        proof {
            let after = self@.with_profile(base@, name@, json@);
            assert(profile_views(self.profiles@.push(row)) =~= after.profiles);
        }
        // The rules hold of a store at every moment, so the tables are taken
        // out, extended, and put back as a whole.
        let mut taken = Store::new();
        core::mem::swap(self, &mut taken);
        let Store { mut profiles, tasks } = taken;
        profiles.push(row);
        *self = Store { profiles, tasks };
        let mut ids: Vec<i64> = Vec::new();
        ids.push(id);
        assert(id_values(ids@) =~= seq![id as int]);
        Reply::Ids(ids)
    }

    /// Adds a task, unless its profile is missing or the table is full.
    fn insert_task(&mut self, profile_id: i64, file_name: String, data: Vec<u8>, digest: Vec<u8>) -> (reply:
        Reply)
        ensures
            (final(self)@, reply@) == old(self)@.execute(
                StatementView::InsertTask {
                    profile_id: profile_id as int,
                    file_name: file_name@,
                    data: data@,
                    digest: digest@,
                },
            ),
    {
        proof {
            use_type_invariant(&*self);
        }
        if !(1 <= profile_id && profile_id as u64 <= self.profiles.len() as u64) {
            return Reply::ForeignKeyViolation;
        }
        if self.tasks.len() as u64 >= i64::MAX as u64 {
            return Reply::Unavailable;
        }
        let id: i64 = self.tasks.len() as i64 + 1;
        let row = Task { id: TaskId(id), profile_id: ProfileId(profile_id), file_name, data, digest };
        proof {
            let after = self@.with_task(profile_id as int, file_name@, data@, digest@);
            assert(task_views(self.tasks@.push(row)) =~= after.tasks);
        }
        // As for a profile: out, extended, back.
        let mut taken = Store::new();
        core::mem::swap(self, &mut taken);
        let Store { profiles, mut tasks } = taken;
        tasks.push(row);
        *self = Store { profiles, tasks };
        let mut ids: Vec<i64> = Vec::new();
        ids.push(id);
        assert(id_values(ids@) =~= seq![id as int]);
        Reply::Ids(ids)
    }

    /// Executes one statement against the tables. The tables obey their
    /// rules before and after.
    pub fn execute(&mut self, statement: Statement) -> (reply: Reply)
        ensures
            old(self)@.wf(),
            final(self)@.wf(),
            (final(self)@, reply@) == old(self)@.execute(statement@),
    {
        proof {
            use_type_invariant(&*self);
        }
        match statement {
            Statement::InsertProfile { base, name, json } => self.insert_profile(base, name, json),
            Statement::SelectProfileIds { by_base } => Reply::Ids(self.select_profile_ids(&by_base)),
            Statement::SelectProfile { id } => Reply::Profiles(self.select_profile(id)),
            Statement::InsertTask { profile_id, file_name, data, digest } => self.insert_task(
                profile_id,
                file_name,
                data,
                digest,
            ),
            Statement::SelectTaskIds { by_profile } => Reply::Ids(self.select_task_ids(by_profile)),
            Statement::SelectTask { id } => Reply::Tasks(self.select_task(id)),
        }
    }
}

} // verus!
