//! The two record types and their identifiers.

use vstd::prelude::*;

use crate::digest::{bytes_equal, digest, names_sha2_256, sha2_256_multihash};

verus! {

/// Identifier of a profile. The store assigns it; a caller never chooses one.
#[derive(Clone, Copy, Debug, PartialEq, Eq, Structural)]
pub struct ProfileId(pub i64);

/// Identifier of a task. Kept apart from `ProfileId` so that the two
/// identifier spaces cannot be swapped at a call site.
#[derive(Clone, Copy, Debug, PartialEq, Eq, Structural)]
pub struct TaskId(pub i64);

impl View for ProfileId {
    type V = int;

    open spec fn view(&self) -> int {
        self.0 as int
    }
}

impl View for TaskId {
    type V = int;

    open spec fn view(&self) -> int {
        self.0 as int
    }
}

/// A named configuration template that tasks are submitted against.
#[derive(Debug, PartialEq, Eq)]
pub struct Profile {
    pub id: ProfileId,
    /// Grouping label; many profiles may share one.
    pub base: String,
    /// Human-chosen label; no two stored profiles share one.
    pub name: String,
    /// Configuration document, kept exactly as it was handed in.
    pub json: String,
}

/// A profile as a mathematical value.
pub struct ProfileView {
    pub id: int,
    pub base: Seq<char>,
    pub name: Seq<char>,
    pub json: Seq<char>,
}

impl View for Profile {
    type V = ProfileView;

    open spec fn view(&self) -> ProfileView {
        ProfileView { id: self.id@, base: self.base@, name: self.name@, json: self.json@ }
    }
}

impl Clone for Profile {
    fn clone(&self) -> (copy: Self)
        ensures
            copy@ == self@,
    {
        Profile {
            id: self.id,
            base: self.base.clone(),
            name: self.name.clone(),
            json: self.json.clone(),
        }
    }
}

/// A submitted payload, bound to one profile.
#[derive(Debug, PartialEq, Eq)]
pub struct Task {
    pub id: TaskId,
    pub profile_id: ProfileId,
    /// Caller-supplied label of the payload.
    pub file_name: String,
    /// The payload, byte for byte.
    pub data: Vec<u8>,
    /// Content address of `data`.
    pub digest: Vec<u8>,
}

/// A task as a mathematical value.
pub struct TaskView {
    pub id: int,
    pub profile_id: int,
    pub file_name: Seq<char>,
    pub data: Seq<u8>,
    pub digest: Seq<u8>,
}

impl TaskView {
    /// The stored digest is the content address of the stored payload, and
    /// its header names the hash function and length.
    pub open spec fn intact(self) -> bool {
        self.digest == sha2_256_multihash(self.data) && names_sha2_256(self.digest)
    }
}

impl View for Task {
    type V = TaskView;

    open spec fn view(&self) -> TaskView {
        TaskView {
            id: self.id@,
            profile_id: self.profile_id@,
            file_name: self.file_name@,
            data: self.data@,
            digest: self.digest@,
        }
    }
}

impl Clone for Task {
    fn clone(&self) -> (copy: Self)
        ensures
            copy@ == self@,
    {
        Task {
            id: self.id,
            profile_id: self.profile_id,
            file_name: self.file_name.clone(),
            data: self.data.clone(),
            digest: self.digest.clone(),
        }
    }
}

impl Task {
    /// Recomputes the content address of the payload and compares it with the
    /// stored digest.
    pub fn verify(&self) -> (ok: bool)
        ensures
            ok == self@.intact(),
    {
        let fresh = digest(self.data.as_slice());
        bytes_equal(fresh.as_slice(), self.digest.as_slice())
    }
}

} // verus!
