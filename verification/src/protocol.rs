//! The six operations as exchanges with a relational backend.
//!
//! Each operation is a statement to send and a reading of the reply. Task
//! creation is two exchanges: the profile is resolved first, and the insert
//! is only planned once the profile has been found. Whoever owns the
//! connection sends the statements; nothing here performs I/O.

use vstd::prelude::*;

use crate::digest::{digest, names_sha2_256, sha2_256_multihash};
use crate::fault::Fault;
use crate::model::{Profile, ProfileId, ProfileView, Task, TaskId, TaskView};
use crate::wire::{optional_text, Reply, ReplyView, Statement, StatementView};

verus! {

/// An outcome as a mathematical value.
pub open spec fn outcome<T: View>(result: Result<T, Fault>) -> Result<T::V, Fault> {
    match result {
        Ok(value) => Ok(value@),
        Err(fault) => Err(fault),
    }
}

/// An enumeration's outcome as a mathematical value.
pub open spec fn listing<T: View>(result: Result<Vec<T>, Fault>) -> Result<Seq<T::V>, Fault> {
    match result {
        Ok(values) => Ok(values@.map_values(|value: T| value@)),
        Err(fault) => Err(fault),
    }
}

/// The filter of a task enumeration as a mathematical value.
pub open spec fn optional_profile(by_profile: Option<ProfileId>) -> Option<int> {
    match by_profile {
        Some(profile) => Some(profile@),
        None => None,
    }
}

impl ReplyView {
    /// The fault that a reply stands for when it carries no usable rows.
    ///
    /// A violated rule of the tables is a conflict. Rows of the wrong kind,
    /// or none where one is owed, are a state that the tables exclude.
    pub open spec fn fault(self) -> Fault {
        match self {
            ReplyView::UniqueViolation => Fault::Conflict,
            ReplyView::ForeignKeyViolation => Fault::Conflict,
            ReplyView::PoolExhausted => Fault::ResourceExhausted,
            ReplyView::Unavailable => Fault::StoreUnavailable,
            _ => Fault::Unexpected,
        }
    }

    /// Reading of the reply to an insert: the identifier of the new row.
    pub open spec fn created(self) -> Result<int, Fault> {
        match self {
            ReplyView::Ids(ids) if ids.len() >= 1 => Ok(ids[0]),
            _ => Err(self.fault()),
        }
    }

    /// Reading of the reply to an enumeration: every identifier, in the
    /// order of the reply. No rows is an empty enumeration, not a fault.
    pub open spec fn listed(self) -> Result<Seq<int>, Fault> {
        match self {
            ReplyView::Ids(ids) => Ok(ids),
            _ => Err(self.fault()),
        }
    }

    /// Reading of the reply to a profile lookup: the row, or `NotFound`
    /// where there is none.
    pub open spec fn found_profile(self) -> Result<ProfileView, Fault> {
        match self {
            ReplyView::Profiles(rows) => if rows.len() >= 1 {
                Ok(rows[0])
            } else {
                Err(Fault::NotFound)
            },
            _ => Err(self.fault()),
        }
    }

    /// Reading of the reply to a task lookup: the row, or `NotFound` where
    /// there is none.
    pub open spec fn found_task(self) -> Result<TaskView, Fault> {
        match self {
            ReplyView::Tasks(rows) => if rows.len() >= 1 {
                Ok(rows[0])
            } else {
                Err(Fault::NotFound)
            },
            _ => Err(self.fault()),
        }
    }

    /// What follows the lookup of a task's profile: the insert, which
    /// carries the content address of the payload, or the fault of the
    /// lookup. No insert is planned for a profile that was not found.
    pub open spec fn then_insert_task(self, file_name: Seq<char>, data: Seq<u8>) -> Result<
        StatementView,
        Fault,
    > {
        match self.found_profile() {
            Ok(profile) => Ok(
                StatementView::InsertTask {
                    profile_id: profile.id,
                    file_name,
                    data,
                    digest: sha2_256_multihash(data),
                },
            ),
            Err(fault) => Err(fault),
        }
    }
}

impl Reply {
    /// The fault that this reply stands for when it carries no usable rows.
    pub fn fault(&self) -> (fault: Fault)
        ensures
            fault == self@.fault(),
    {
        match self {
            Reply::UniqueViolation => Fault::Conflict,
            Reply::ForeignKeyViolation => Fault::Conflict,
            Reply::PoolExhausted => Fault::ResourceExhausted,
            Reply::Unavailable => Fault::StoreUnavailable,
            _ => Fault::Unexpected,
        }
    }
}

/// The statement that creates a profile.
pub fn create_profile_statement(base_name: String, name: String, json: String) -> (statement: Statement)
    ensures
        statement@ == (StatementView::InsertProfile { base: base_name@, name: name@, json: json@ }),
{
    Statement::InsertProfile { base: base_name, name, json }
}

/// The identifier of the profile that an insert created.
pub fn created_profile(reply: Reply) -> (created: Result<ProfileId, Fault>)
    ensures
        outcome(created) == reply@.created(),
{
    match reply {
        Reply::Ids(ids) => {
            if ids.len() >= 1 {
                Ok(ProfileId(ids[0]))
            } else {
                Err(Fault::Unexpected)
            }
        },
        other => Err(other.fault()),
    }
}

/// The statement that enumerates profiles, all of them or those of one base.
pub fn list_profiles_statement(by_base: Option<String>) -> (statement: Statement)
    ensures
        statement@ == (StatementView::SelectProfileIds { by_base: optional_text(by_base) }),
{
    Statement::SelectProfileIds { by_base }
}

/// The profile identifiers that an enumeration yielded.
pub fn listed_profiles(reply: Reply) -> (listed: Result<Vec<ProfileId>, Fault>)
    ensures
        listing(listed) == reply@.listed(),
{
    match reply {
        Reply::Ids(ids) => {
            let mut out: Vec<ProfileId> = Vec::new();
            let mut i: usize = 0;
            while i < ids.len()
                invariant
                    i <= ids@.len(),
                    out@.len() == i,
                    forall|k: int| 0 <= k < i ==> (#[trigger] out@[k])@ == ids@[k] as int,
                decreases ids@.len() - i,
            {
                out.push(ProfileId(ids[i]));
                i = i + 1;
            }
            assert(out@.map_values(|value: ProfileId| value@) =~= crate::wire::id_values(ids@));
            Ok(out)
        },
        other => Err(other.fault()),
    }
}

/// The statement that looks one profile up.
pub fn fetch_profile_statement(id: ProfileId) -> (statement: Statement)
    ensures
        statement@ == (StatementView::SelectProfile { id: id@ }),
{
    Statement::SelectProfile { id: id.0 }
}

/// The profile that a lookup found.
pub fn fetched_profile(reply: Reply) -> (fetched: Result<Profile, Fault>)
    ensures
        outcome(fetched) == reply@.found_profile(),
{
    match reply {
        Reply::Profiles(mut rows) => {
            if rows.len() >= 1 {
                Ok(rows.swap_remove(0))
            } else {
                Err(Fault::NotFound)
            }
        },
        other => Err(other.fault()),
    }
}

/// The statement that creates a task, planned from the reply to the lookup
/// of its profile. Computes the content address of the payload.
pub fn create_task_statement(resolved: Reply, file_name: String, data: Vec<u8>) -> (planned: Result<
    Statement,
    Fault,
>)
    ensures
        outcome(planned) == resolved@.then_insert_task(file_name@, data@),
        planned matches Ok(Statement::InsertTask { digest, .. }) ==> names_sha2_256(digest@),
{
    match fetched_profile(resolved) {
        Ok(profile) => {
            let address = digest(data.as_slice());
            Ok(Statement::InsertTask { profile_id: profile.id.0, file_name, data, digest: address })
        },
        Err(fault) => Err(fault),
    }
}

/// The identifier of the task that an insert created.
pub fn created_task(reply: Reply) -> (created: Result<TaskId, Fault>)
    ensures
        outcome(created) == reply@.created(),
{
    match reply {
        Reply::Ids(ids) => {
            if ids.len() >= 1 {
                Ok(TaskId(ids[0]))
            } else {
                Err(Fault::Unexpected)
            }
        },
        other => Err(other.fault()),
    }
}

/// The statement that enumerates tasks, all of them or those of one profile.
pub fn list_tasks_statement(by_profile: Option<ProfileId>) -> (statement: Statement)
    ensures
        statement@ == (StatementView::SelectTaskIds { by_profile: optional_profile(by_profile) }),
{
    match by_profile {
        Some(profile) => Statement::SelectTaskIds { by_profile: Some(profile.0) },
        None => Statement::SelectTaskIds { by_profile: None },
    }
}

/// The task identifiers that an enumeration yielded.
pub fn listed_tasks(reply: Reply) -> (listed: Result<Vec<TaskId>, Fault>)
    ensures
        listing(listed) == reply@.listed(),
{
    match reply {
        Reply::Ids(ids) => {
            let mut out: Vec<TaskId> = Vec::new();
            let mut i: usize = 0;
            while i < ids.len()
                invariant
                    i <= ids@.len(),
                    out@.len() == i,
                    forall|k: int| 0 <= k < i ==> (#[trigger] out@[k])@ == ids@[k] as int,
                decreases ids@.len() - i,
            {
                out.push(TaskId(ids[i]));
                i = i + 1;
            }
            assert(out@.map_values(|value: TaskId| value@) =~= crate::wire::id_values(ids@));
            Ok(out)
        },
        other => Err(other.fault()),
    }
}

/// The statement that looks one task up.
pub fn fetch_task_statement(id: TaskId) -> (statement: Statement)
    ensures
        statement@ == (StatementView::SelectTask { id: id@ }),
{
    Statement::SelectTask { id: id.0 }
}

/// The task that a lookup found.
pub fn fetched_task(reply: Reply) -> (fetched: Result<Task, Fault>)
    ensures
        outcome(fetched) == reply@.found_task(),
{
    match reply {
        Reply::Tasks(mut rows) => {
            if rows.len() >= 1 {
                Ok(rows.swap_remove(0))
            } else {
                Err(Fault::NotFound)
            }
        },
        other => Err(other.fault()),
    }
}

} // verus!
