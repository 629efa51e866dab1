//! What passes between the service and its relational backend: statements
//! with their bind parameters one way, replies the other.
//!
//! A statement's text is fixed by its form. Every value that a caller
//! supplied travels as a bind parameter and never becomes part of the text.

use vstd::prelude::*;

use crate::model::{Profile, ProfileView, Task, TaskView};

verus! {

/// One statement against the two tables.
#[derive(Debug, PartialEq, Eq)]
pub enum Statement {
    InsertProfile { base: String, name: String, json: String },
    SelectProfileIds { by_base: Option<String> },
    SelectProfile { id: i64 },
    InsertTask { profile_id: i64, file_name: String, data: Vec<u8>, digest: Vec<u8> },
    SelectTaskIds { by_profile: Option<i64> },
    SelectTask { id: i64 },
}

/// A statement as a mathematical value.
pub enum StatementView {
    InsertProfile { base: Seq<char>, name: Seq<char>, json: Seq<char> },
    SelectProfileIds { by_base: Option<Seq<char>> },
    SelectProfile { id: int },
    InsertTask { profile_id: int, file_name: Seq<char>, data: Seq<u8>, digest: Seq<u8> },
    SelectTaskIds { by_profile: Option<int> },
    SelectTask { id: int },
}

/// A value bound to a placeholder of a statement.
#[derive(Debug, PartialEq, Eq)]
pub enum Param {
    Int(i64),
    Text(String),
    Bytes(Vec<u8>),
}

/// A bind parameter as a mathematical value.
pub enum ParamView {
    Int(int),
    Text(Seq<char>),
    Bytes(Seq<u8>),
}

/// The kind of row that a statement yields.
#[derive(Clone, Copy, Debug, PartialEq, Eq, Structural)]
pub enum Shape {
    /// One column, `id`.
    Ids,
    /// All columns of `profiles`.
    Profiles,
    /// All columns of `tasks`.
    Tasks,
}

/// What the backend answered to one statement.
#[derive(Debug, PartialEq, Eq)]
pub enum Reply {
    Ids(Vec<i64>),
    Profiles(Vec<Profile>),
    Tasks(Vec<Task>),
    /// A `UNIQUE` constraint refused the row.
    UniqueViolation,
    /// A `REFERENCES` constraint refused the row.
    ForeignKeyViolation,
    /// No connection could be had from the pool in time.
    PoolExhausted,
    /// Any other failure of the backend.
    Unavailable,
}

/// A reply as a mathematical value.
pub enum ReplyView {
    Ids(Seq<int>),
    Profiles(Seq<ProfileView>),
    Tasks(Seq<TaskView>),
    UniqueViolation,
    ForeignKeyViolation,
    PoolExhausted,
    Unavailable,
}

/// SQLSTATE of a violated `UNIQUE` constraint.
pub open spec fn unique_violation_state() -> Seq<char> {
    "23505"@
}

/// SQLSTATE of a violated `REFERENCES` constraint.
pub open spec fn foreign_key_violation_state() -> Seq<char> {
    "23503"@
}

/// The characters of an optional string.
pub open spec fn optional_text(text: Option<String>) -> Option<Seq<char>> {
    match text {
        Some(s) => Some(s@),
        None => None,
    }
}

/// The value of an optional integer.
pub open spec fn optional_int(number: Option<i64>) -> Option<int> {
    match number {
        Some(n) => Some(n as int),
        None => None,
    }
}

/// Identifiers as mathematical integers.
pub open spec fn id_values(ids: Seq<i64>) -> Seq<int> {
    ids.map_values(|id: i64| id as int)
}

/// Profile rows as mathematical values.
pub open spec fn profile_views(rows: Seq<Profile>) -> Seq<ProfileView> {
    rows.map_values(|row: Profile| row@)
}

/// Task rows as mathematical values.
pub open spec fn task_views(rows: Seq<Task>) -> Seq<TaskView> {
    rows.map_values(|row: Task| row@)
}

/// Bind parameters as mathematical values.
pub open spec fn param_views(params: Seq<Param>) -> Seq<ParamView> {
    params.map_values(|param: Param| param@)
}

impl View for Param {
    type V = ParamView;

    open spec fn view(&self) -> ParamView {
        match *self {
            Param::Int(n) => ParamView::Int(n as int),
            Param::Text(s) => ParamView::Text(s@),
            Param::Bytes(b) => ParamView::Bytes(b@),
        }
    }
}

impl View for Statement {
    type V = StatementView;

    open spec fn view(&self) -> StatementView {
        match *self {
            Statement::InsertProfile { base, name, json } => StatementView::InsertProfile {
                base: base@,
                name: name@,
                json: json@,
            },
            Statement::SelectProfileIds { by_base } => StatementView::SelectProfileIds {
                by_base: optional_text(by_base),
            },
            Statement::SelectProfile { id } => StatementView::SelectProfile { id: id as int },
            Statement::InsertTask { profile_id, file_name, data, digest } => StatementView::InsertTask {
                profile_id: profile_id as int,
                file_name: file_name@,
                data: data@,
                digest: digest@,
            },
            Statement::SelectTaskIds { by_profile } => StatementView::SelectTaskIds {
                by_profile: optional_int(by_profile),
            },
            Statement::SelectTask { id } => StatementView::SelectTask { id: id as int },
        }
    }
}

impl View for Reply {
    type V = ReplyView;

    open spec fn view(&self) -> ReplyView {
        match *self {
            Reply::Ids(ids) => ReplyView::Ids(id_values(ids@)),
            Reply::Profiles(rows) => ReplyView::Profiles(profile_views(rows@)),
            Reply::Tasks(rows) => ReplyView::Tasks(task_views(rows@)),
            Reply::UniqueViolation => ReplyView::UniqueViolation,
            Reply::ForeignKeyViolation => ReplyView::ForeignKeyViolation,
            Reply::PoolExhausted => ReplyView::PoolExhausted,
            Reply::Unavailable => ReplyView::Unavailable,
        }
    }
}

impl StatementView {
    /// The statement's text, with `$1`, `$2`, ... where the bind parameters go.
    pub open spec fn text(self) -> Seq<char> {
        match self {
            StatementView::InsertProfile { .. } => "INSERT INTO profiles (base, name, json) VALUES ($1, $2, $3) RETURNING id"@,
            StatementView::SelectProfileIds { by_base: Some(_) } => "SELECT (id) FROM profiles WHERE base = $1"@,
            StatementView::SelectProfileIds { by_base: None } => "SELECT (id) FROM profiles"@,
            StatementView::SelectProfile { .. } => "SELECT * FROM profiles WHERE id = $1"@,
            StatementView::InsertTask { .. } => "INSERT INTO tasks (profile_id, file_name, data, digest) VALUES ($1, $2, $3, $4) RETURNING id"@,
            StatementView::SelectTaskIds { by_profile: Some(_) } => "SELECT (id) FROM tasks WHERE profile_id = $1"@,
            StatementView::SelectTaskIds { by_profile: None } => "SELECT (id) FROM tasks"@,
            StatementView::SelectTask { .. } => "SELECT * FROM tasks WHERE id = $1"@,
        }
    }

    /// The values bound to `$1`, `$2`, ..., in that order.
    pub open spec fn params(self) -> Seq<ParamView> {
        match self {
            StatementView::InsertProfile { base, name, json } => seq![
                ParamView::Text(base),
                ParamView::Text(name),
                ParamView::Text(json),
            ],
            StatementView::SelectProfileIds { by_base: Some(base) } => seq![ParamView::Text(base)],
            StatementView::SelectProfileIds { by_base: None } => seq![],
            StatementView::SelectProfile { id } => seq![ParamView::Int(id)],
            StatementView::InsertTask { profile_id, file_name, data, digest } => seq![
                ParamView::Int(profile_id),
                ParamView::Text(file_name),
                ParamView::Bytes(data),
                ParamView::Bytes(digest),
            ],
            StatementView::SelectTaskIds { by_profile: Some(profile) } => seq![ParamView::Int(profile)],
            StatementView::SelectTaskIds { by_profile: None } => seq![],
            StatementView::SelectTask { id } => seq![ParamView::Int(id)],
        }
    }

    /// The kind of row that the statement yields.
    pub open spec fn shape(self) -> Shape {
        match self {
            StatementView::InsertProfile { .. } => Shape::Ids,
            StatementView::SelectProfileIds { .. } => Shape::Ids,
            StatementView::SelectProfile { .. } => Shape::Profiles,
            StatementView::InsertTask { .. } => Shape::Ids,
            StatementView::SelectTaskIds { .. } => Shape::Ids,
            StatementView::SelectTask { .. } => Shape::Tasks,
        }
    }
}

impl ReplyView {
    /// The reply that stands for a failed statement, by the SQLSTATE that
    /// the backend gave, if it gave one.
    pub open spec fn of_failure(sqlstate: Option<Seq<char>>) -> ReplyView {
        if sqlstate == Some(unique_violation_state()) {
            ReplyView::UniqueViolation
        } else if sqlstate == Some(foreign_key_violation_state()) {
            ReplyView::ForeignKeyViolation
        } else {
            ReplyView::Unavailable
        }
    }
}

impl Statement {
    /// The statement's text, with `$1`, `$2`, ... where the bind parameters go.
    pub fn text(&self) -> (sql: &'static str)
        ensures
            sql@ == self@.text(),
    {
        match self {
            Statement::InsertProfile { .. } => "INSERT INTO profiles (base, name, json) VALUES ($1, $2, $3) RETURNING id",
            Statement::SelectProfileIds { by_base: Some(_) } => "SELECT (id) FROM profiles WHERE base = $1",
            Statement::SelectProfileIds { by_base: None } => "SELECT (id) FROM profiles",
            Statement::SelectProfile { .. } => "SELECT * FROM profiles WHERE id = $1",
            Statement::InsertTask { .. } => "INSERT INTO tasks (profile_id, file_name, data, digest) VALUES ($1, $2, $3, $4) RETURNING id",
            Statement::SelectTaskIds { by_profile: Some(_) } => "SELECT (id) FROM tasks WHERE profile_id = $1",
            Statement::SelectTaskIds { by_profile: None } => "SELECT (id) FROM tasks",
            Statement::SelectTask { .. } => "SELECT * FROM tasks WHERE id = $1",
        }
    }

    /// The values bound to `$1`, `$2`, ..., in that order.
    pub fn params(&self) -> (out: Vec<Param>)
        ensures
            param_views(out@) == self@.params(),
    {
        let mut out: Vec<Param> = Vec::new();
        match self {
            Statement::InsertProfile { base, name, json } => {
                out.push(Param::Text(base.clone()));
                out.push(Param::Text(name.clone()));
                out.push(Param::Text(json.clone()));
            },
            Statement::SelectProfileIds { by_base: Some(base) } => {
                out.push(Param::Text(base.clone()));
            },
            Statement::SelectProfileIds { by_base: None } => {},
            Statement::SelectProfile { id } => {
                out.push(Param::Int(*id));
            },
            Statement::InsertTask { profile_id, file_name, data, digest } => {
                out.push(Param::Int(*profile_id));
                out.push(Param::Text(file_name.clone()));
                out.push(Param::Bytes(data.clone()));
                out.push(Param::Bytes(digest.clone()));
            },
            Statement::SelectTaskIds { by_profile: Some(profile) } => {
                out.push(Param::Int(*profile));
            },
            Statement::SelectTaskIds { by_profile: None } => {},
            Statement::SelectTask { id } => {
                out.push(Param::Int(*id));
            },
        }
        out
    }

    /// The kind of row that the statement yields.
    pub fn shape(&self) -> (shape: Shape)
        ensures
            shape == self@.shape(),
    {
        match self {
            Statement::InsertProfile { .. } => Shape::Ids,
            Statement::SelectProfileIds { .. } => Shape::Ids,
            Statement::SelectProfile { .. } => Shape::Profiles,
            Statement::InsertTask { .. } => Shape::Ids,
            Statement::SelectTaskIds { .. } => Shape::Ids,
            Statement::SelectTask { .. } => Shape::Tasks,
        }
    }
}

impl Reply {
    /// The reply that stands for a failed statement, by the SQLSTATE that
    /// the backend gave, if it gave one.
    pub fn from_failure(sqlstate: Option<String>) -> (reply: Reply)
        ensures
            reply@ == ReplyView::of_failure(optional_text(sqlstate)),
    {
        match sqlstate {
            Some(state) => {
                if state == "23505".to_owned() {
                    Reply::UniqueViolation
                } else if state == "23503".to_owned() {
                    Reply::ForeignKeyViolation
                } else {
                    Reply::Unavailable
                }
            },
            None => Reply::Unavailable,
        }
    }
}

/// The statement that creates the `profiles` table unless it exists.
pub open spec fn profiles_table_text() -> Seq<char> {
    "CREATE TABLE IF NOT EXISTS profiles (id BIGSERIAL PRIMARY KEY NOT NULL, base TEXT NOT NULL, name TEXT UNIQUE NOT NULL, json TEXT NOT NULL)"@
}

/// The statement that creates the `tasks` table unless it exists.
pub open spec fn tasks_table_text() -> Seq<char> {
    "CREATE TABLE IF NOT EXISTS tasks (id BIGSERIAL PRIMARY KEY NOT NULL, profile_id BIGINT NOT NULL REFERENCES profiles (id), file_name TEXT NOT NULL, data BYTEA NOT NULL, digest BYTEA NOT NULL)"@
}

/// The statements that set up both tables, in the order in which they must
/// run: `tasks` refers to `profiles`. Each leaves an existing table alone.
pub fn schema() -> (statements: Vec<&'static str>)
    ensures
        statements@.len() == 2,
        statements@[0]@ == profiles_table_text(),
        statements@[1]@ == tasks_table_text(),
{
    let mut statements: Vec<&'static str> = Vec::new();
    statements.push("CREATE TABLE IF NOT EXISTS profiles (id BIGSERIAL PRIMARY KEY NOT NULL, base TEXT NOT NULL, name TEXT UNIQUE NOT NULL, json TEXT NOT NULL)");
    statements.push("CREATE TABLE IF NOT EXISTS tasks (id BIGSERIAL PRIMARY KEY NOT NULL, profile_id BIGINT NOT NULL REFERENCES profiles (id), file_name TEXT NOT NULL, data BYTEA NOT NULL, digest BYTEA NOT NULL)");
    statements
}

} // verus!
