//! What holds of the tables and of the six operations, in every valid state.

use vstd::prelude::*;

use crate::digest::sha2_256_multihash;
use crate::fault::Fault;
use crate::model::{ProfileView, TaskView};
use crate::store::{
    in_base,
    lemma_profile_ids_step,
    lemma_task_ids_step,
    of_profile,
    profile_ids_among,
    task_ids_among,
    Tables,
};
use crate::wire::StatementView;

verus! {

/// An identifier is enumerated exactly if a row that passes the filter has it.
pub proof fn lemma_profile_ids_members(rows: Seq<ProfileView>, by_base: Option<Seq<char>>, id: int)
    ensures
        profile_ids_among(rows, by_base).contains(id) <==> exists|i: int|
            0 <= i < rows.len() && in_base(by_base)(#[trigger] rows[i]) && rows[i].id == id,
    decreases rows.len(),
{
    let ids = profile_ids_among(rows, by_base);
    if rows.len() == 0 {
        reveal(Seq::filter);
    } else {
        let n = rows.len() - 1;
        let front = rows.take(n);
        let before = profile_ids_among(front, by_base);
        lemma_profile_ids_step(rows, by_base, n);
        assert(rows.take(n + 1) =~= rows);
        lemma_profile_ids_members(front, by_base, id);
        if exists|i: int| 0 <= i < rows.len() && in_base(by_base)(#[trigger] rows[i]) && rows[i].id == id {
            let i = choose|i: int|
                0 <= i < rows.len() && in_base(by_base)(#[trigger] rows[i]) && rows[i].id == id;
            if i == n {
                assert(ids[before.len() as int] == id);
            } else {
                let k = choose|k: int| 0 <= k < before.len() && before[k] == id;
                assert(ids[k] == id);
            }
        }
    }
}

/// An identifier is enumerated exactly if a row that passes the filter has it.
pub proof fn lemma_task_ids_members(rows: Seq<TaskView>, by_profile: Option<int>, id: int)
    ensures
        task_ids_among(rows, by_profile).contains(id) <==> exists|i: int|
            0 <= i < rows.len() && of_profile(by_profile)(#[trigger] rows[i]) && rows[i].id == id,
    decreases rows.len(),
{
    let ids = task_ids_among(rows, by_profile);
    if rows.len() == 0 {
        reveal(Seq::filter);
    } else {
        let n = rows.len() - 1;
        let front = rows.take(n);
        let before = task_ids_among(front, by_profile);
        lemma_task_ids_step(rows, by_profile, n);
        assert(rows.take(n + 1) =~= rows);
        lemma_task_ids_members(front, by_profile, id);
        if exists|i: int|
            0 <= i < rows.len() && of_profile(by_profile)(#[trigger] rows[i]) && rows[i].id == id {
            let i = choose|i: int|
                0 <= i < rows.len() && of_profile(by_profile)(#[trigger] rows[i]) && rows[i].id == id;
            if i == n {
                assert(ids[before.len() as int] == id);
            } else {
                let k = choose|k: int| 0 <= k < before.len() && before[k] == id;
                assert(ids[k] == id);
            }
        }
    }
}

/// Where the rows carry the identifiers 1, 2, 3, ..., an enumeration
/// ascends strictly, within those identifiers.
pub proof fn lemma_profile_ids_ascend(rows: Seq<ProfileView>, by_base: Option<Seq<char>>)
    requires
        forall|i: int| 0 <= i < rows.len() ==> (#[trigger] rows[i]).id == i + 1,
    ensures
        forall|a: int, b: int|
            0 <= a < b < profile_ids_among(rows, by_base).len() ==> profile_ids_among(rows, by_base)[a]
                < profile_ids_among(rows, by_base)[b],
        forall|a: int|
            0 <= a < profile_ids_among(rows, by_base).len() ==> 1 <= #[trigger] profile_ids_among(
                rows,
                by_base,
            )[a] <= rows.len(),
    decreases rows.len(),
{
    if rows.len() == 0 {
        reveal(Seq::filter);
    } else {
        let n = rows.len() - 1;
        let front = rows.take(n);
        lemma_profile_ids_step(rows, by_base, n);
        assert(rows.take(n + 1) =~= rows);
        lemma_profile_ids_ascend(front, by_base);
    }
}

/// Where the rows carry the identifiers 1, 2, 3, ..., an enumeration
/// ascends strictly, within those identifiers.
pub proof fn lemma_task_ids_ascend(rows: Seq<TaskView>, by_profile: Option<int>)
    requires
        forall|i: int| 0 <= i < rows.len() ==> (#[trigger] rows[i]).id == i + 1,
    ensures
        forall|a: int, b: int|
            0 <= a < b < task_ids_among(rows, by_profile).len() ==> task_ids_among(rows, by_profile)[a]
                < task_ids_among(rows, by_profile)[b],
        forall|a: int|
            0 <= a < task_ids_among(rows, by_profile).len() ==> 1 <= #[trigger] task_ids_among(
                rows,
                by_profile,
            )[a] <= rows.len(),
    decreases rows.len(),
{
    if rows.len() == 0 {
        reveal(Seq::filter);
    } else {
        let n = rows.len() - 1;
        let front = rows.take(n);
        lemma_task_ids_step(rows, by_profile, n);
        assert(rows.take(n + 1) =~= rows);
        lemma_task_ids_ascend(front, by_profile);
    }
}

/// In a valid state an identifier belongs to exactly one row, and a row is
/// there exactly if some row carries its identifier.
pub proof fn lemma_identifier_names_one_row(tables: Tables, id: int)
    requires
        tables.wf(),
    ensures
        tables.has_profile(id) <==> exists|i: int|
            0 <= i < tables.profiles.len() && (#[trigger] tables.profiles[i]).id == id,
        tables.has_profile(id) ==> tables.profile(id).id == id,
        forall|i: int, j: int|
            0 <= i < tables.profiles.len() && 0 <= j < tables.profiles.len() && (
            #[trigger] tables.profiles[i]).id == (#[trigger] tables.profiles[j]).id ==> i == j,
        tables.has_task(id) <==> exists|k: int|
            0 <= k < tables.tasks.len() && (#[trigger] tables.tasks[k]).id == id,
        tables.has_task(id) ==> tables.task(id).id == id,
        forall|i: int, j: int|
            0 <= i < tables.tasks.len() && 0 <= j < tables.tasks.len() && (#[trigger] tables.tasks[i]).id
                == (#[trigger] tables.tasks[j]).id ==> i == j,
{
    if tables.has_profile(id) {
        assert(tables.profiles[id - 1].id == id);
    }
    if tables.has_task(id) {
        assert(tables.tasks[id - 1].id == id);
    }
}

/// Every statement leaves a valid state valid, and an enumeration or a
/// lookup leaves the tables as they were.
pub proof fn lemma_execute_keeps_rules(tables: Tables, statement: StatementView)
    requires
        tables.wf(),
    ensures
        tables.execute(statement).0.wf(),
        !(statement is InsertProfile) && !(statement is InsertTask) ==> tables.execute(statement).0
            == tables,
{
}

/// Every operation leaves a valid state valid.
pub proof fn lemma_operations_keep_rules(
    tables: Tables,
    base: Seq<char>,
    name: Seq<char>,
    json: Seq<char>,
    profile: int,
    file_name: Seq<char>,
    data: Seq<u8>,
)
    requires
        tables.wf(),
    ensures
        tables.create_profile(base, name, json).0.wf(),
        tables.create_task(profile, file_name, data).0.wf(),
{
}

/// Rows stay and identifiers only grow: a created profile gets an
/// identifier greater than every identifier in use, and the rows that were
/// there are there unchanged.
pub proof fn lemma_profile_identifiers_grow(
    tables: Tables,
    base: Seq<char>,
    name: Seq<char>,
    json: Seq<char>,
)
    requires
        tables.wf(),
    ensures
        ({
            let (after, created) = tables.create_profile(base, name, json);
            created matches Ok(id) ==> {
                &&& forall|i: int|
                    0 <= i < tables.profiles.len() ==> (#[trigger] tables.profiles[i]).id < id
                &&& after.profiles.take(tables.profiles.len() as int) == tables.profiles
                &&& after.profiles.len() == tables.profiles.len() + 1
                &&& after.profile(id) == (ProfileView { id, base, name, json })
                &&& after.tasks == tables.tasks
            }
        }),
{
}

/// Rows stay and identifiers only grow: a created task gets an identifier
/// greater than every identifier in use, and the rows that were there are
/// there unchanged.
pub proof fn lemma_task_identifiers_grow(
    tables: Tables,
    profile: int,
    file_name: Seq<char>,
    data: Seq<u8>,
)
    requires
        tables.wf(),
    ensures
        ({
            let (after, created) = tables.create_task(profile, file_name, data);
            created matches Ok(id) ==> {
                &&& forall|k: int| 0 <= k < tables.tasks.len() ==> (#[trigger] tables.tasks[k]).id < id
                &&& after.tasks.take(tables.tasks.len() as int) == tables.tasks
                &&& after.tasks.len() == tables.tasks.len() + 1
                &&& after.profiles == tables.profiles
            }
        }),
{
}

/// A task that was created is fetched as it was handed in, and its digest
/// is the content address of the payload that is fetched with it.
pub proof fn lemma_created_task_round_trips(
    tables: Tables,
    profile: int,
    file_name: Seq<char>,
    data: Seq<u8>,
)
    requires
        tables.wf(),
    ensures
        ({
            let (after, created) = tables.create_task(profile, file_name, data);
            created matches Ok(id) ==> {
                &&& after.fetch_task(id) matches Ok(task)
                &&& task.id == id
                &&& task.profile_id == profile
                &&& task.file_name == file_name
                &&& task.data == data
                &&& task.digest == sha2_256_multihash(task.data)
            }
        }),
{
}

/// A profile that was created is fetched as it was handed in.
pub proof fn lemma_created_profile_round_trips(
    tables: Tables,
    base: Seq<char>,
    name: Seq<char>,
    json: Seq<char>,
)
    requires
        tables.wf(),
    ensures
        ({
            let (after, created) = tables.create_profile(base, name, json);
            created matches Ok(id) ==> after.fetch_profile(id) == Ok::<ProfileView, Fault>(
                ProfileView { id, base, name, json },
            )
        }),
{
}

/// A name can be given once. After a profile was created under a name,
/// creating another under that name fails with `Conflict` and changes
/// nothing, whatever its base and document. The first creation succeeds
/// unless the name was taken before or the table is full.
pub proof fn lemma_profile_name_is_unique(
    tables: Tables,
    name: Seq<char>,
    first_base: Seq<char>,
    first_json: Seq<char>,
    second_base: Seq<char>,
    second_json: Seq<char>,
)
    requires
        tables.wf(),
    ensures
        ({
            let (after, first) = tables.create_profile(first_base, name, first_json);
            let (last, second) = after.create_profile(second_base, name, second_json);
            &&& first is Ok <==> !tables.name_taken(name) && !tables.profiles_full()
            &&& first is Ok || first == Err::<int, Fault>(Fault::Conflict) ==> second == Err::<int, Fault>(
                Fault::Conflict,
            )
            &&& last == after
        }),
{
    let (after, first) = tables.create_profile(first_base, name, first_json);
    if first is Ok {
        assert(after.profiles[tables.profiles.len() as int].name == name);
    }
}

/// A task cannot be created against a profile that is not there: the
/// operation fails with `NotFound` and adds no row.
pub proof fn lemma_task_needs_its_profile(
    tables: Tables,
    profile: int,
    file_name: Seq<char>,
    data: Seq<u8>,
)
    requires
        tables.wf(),
        forall|i: int| 0 <= i < tables.profiles.len() ==> (#[trigger] tables.profiles[i]).id != profile,
    ensures
        tables.create_task(profile, file_name, data) == (tables, Err::<int, Fault>(Fault::NotFound)),
{
    if tables.has_profile(profile) {
        assert(tables.profiles[profile - 1].id == profile);
    }
}

/// In a valid state every task refers to a profile that is there.
pub proof fn lemma_tasks_refer_to_profiles(tables: Tables, id: int)
    requires
        tables.wf(),
        tables.has_task(id),
    ensures
        tables.fetch_profile(tables.task(id).profile_id) is Ok,
{
}

/// An enumeration of profiles holds exactly the identifiers of the profiles
/// that pass its filter, each once, and is never a fault.
pub proof fn lemma_list_profiles_is_exact(tables: Tables, by_base: Option<Seq<char>>)
    requires
        tables.wf(),
    ensures
        tables.list_profiles(by_base) matches Ok(ids) && {
            &&& ids.no_duplicates()
            &&& forall|id: int| #[trigger]
                ids.contains(id) <==> tables.has_profile(id) && in_base(by_base)(tables.profile(id))
        },
{
    let ids = tables.profile_ids(by_base);
    lemma_profile_ids_ascend(tables.profiles, by_base);
    assert forall|id: int| #[trigger]
        ids.contains(id) <==> tables.has_profile(id) && in_base(by_base)(tables.profile(id)) by {
        lemma_profile_ids_members(tables.profiles, by_base, id);
    }
}

/// An enumeration of tasks holds exactly the identifiers of the tasks that
/// pass its filter, each once, and is never a fault.
pub proof fn lemma_list_tasks_is_exact(tables: Tables, by_profile: Option<int>)
    requires
        tables.wf(),
    ensures
        tables.list_tasks(by_profile) matches Ok(ids) && {
            &&& ids.no_duplicates()
            &&& forall|id: int| #[trigger]
                ids.contains(id) <==> tables.has_task(id) && of_profile(by_profile)(tables.task(id))
        },
{
    let ids = tables.task_ids(by_profile);
    lemma_task_ids_ascend(tables.tasks, by_profile);
    assert forall|id: int| #[trigger]
        ids.contains(id) <==> tables.has_task(id) && of_profile(by_profile)(tables.task(id)) by {
        lemma_task_ids_members(tables.tasks, by_profile, id);
    }
}

/// Where no profile has the base that is asked for, the enumeration is
/// empty, and not a fault.
pub proof fn lemma_no_match_lists_nothing(tables: Tables, base: Seq<char>)
    requires
        forall|i: int| 0 <= i < tables.profiles.len() ==> (#[trigger] tables.profiles[i]).base != base,
    ensures
        tables.list_profiles(Some(base)) == Ok::<Seq<int>, Fault>(Seq::empty()),
{
    let ids = tables.profile_ids(Some(base));
    if ids.len() > 0 {
        lemma_profile_ids_members(tables.profiles, Some(base), ids[0]);
    }
    assert(ids =~= Seq::empty());
}

/// Where no task belongs to the profile that is asked for, the enumeration
/// is empty, and not a fault.
pub proof fn lemma_no_task_lists_nothing(tables: Tables, profile: int)
    requires
        forall|k: int| 0 <= k < tables.tasks.len() ==> (#[trigger] tables.tasks[k]).profile_id != profile,
    ensures
        tables.list_tasks(Some(profile)) == Ok::<Seq<int>, Fault>(Seq::empty()),
{
    let ids = tables.task_ids(Some(profile));
    if ids.len() > 0 {
        lemma_task_ids_members(tables.tasks, Some(profile), ids[0]);
    }
    assert(ids =~= Seq::empty());
}

/// Against a backend that executes statements as the tables say, the
/// exchange of each operation but task creation does what the operation
/// says: the statement is sent, the reply is read, and that is the outcome.
pub proof fn lemma_exchange_performs_operation(
    tables: Tables,
    base: Seq<char>,
    name: Seq<char>,
    json: Seq<char>,
    by_base: Option<Seq<char>>,
    by_profile: Option<int>,
    id: int,
)
    requires
        tables.wf(),
    ensures
        ({
            let (after, reply) = tables.execute(StatementView::InsertProfile { base, name, json });
            (after, reply.created()) == tables.create_profile(base, name, json)
        }),
        ({
            let (after, reply) = tables.execute(StatementView::SelectProfileIds { by_base });
            after == tables && reply.listed() == tables.list_profiles(by_base)
        }),
        ({
            let (after, reply) = tables.execute(StatementView::SelectProfile { id });
            after == tables && reply.found_profile() == tables.fetch_profile(id)
        }),
        ({
            let (after, reply) = tables.execute(StatementView::SelectTaskIds { by_profile });
            after == tables && reply.listed() == tables.list_tasks(by_profile)
        }),
        ({
            let (after, reply) = tables.execute(StatementView::SelectTask { id });
            after == tables && reply.found_task() == tables.fetch_task(id)
        }),
{
}

/// Against a backend that executes statements as the tables say, the two
/// exchanges of task creation do what the operation says: the profile is
/// looked up, and only where it was found is the insert sent.
pub proof fn lemma_exchanges_perform_create_task(
    tables: Tables,
    profile: int,
    file_name: Seq<char>,
    data: Seq<u8>,
)
    requires
        tables.wf(),
    ensures
        ({
            let (same, resolved) = tables.execute(StatementView::SelectProfile { id: profile });
            let outcome = match resolved.then_insert_task(file_name, data) {
                Ok(statement) => {
                    let (after, reply) = same.execute(statement);
                    (after, reply.created())
                },
                Err(fault) => (same, Err(fault)),
            };
            same == tables && outcome == tables.create_task(profile, file_name, data)
        }),
{
}

} // verus!
