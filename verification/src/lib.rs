//! A coordination service core: profiles, the tasks submitted against them,
//! the content address of every task payload, and the relational rules that
//! tie the two tables together.
//!
//! `RpcImpl` is the service over tables held in memory. A deployment that
//! keeps its tables in a SQL database sends the statements of `protocol`
//! over its own connection and hands the replies back.

pub mod digest;
pub mod fault;
pub mod laws;
pub mod model;
pub mod protocol;
pub mod rpc;
pub mod store;
pub mod wire;

pub use crate::digest::digest;
pub use crate::fault::Fault;
pub use crate::model::{Profile, ProfileId, Task, TaskId};
pub use crate::rpc::{Rpc, RpcImpl};
pub use crate::store::Store;
pub use crate::wire::{Param, Reply, Shape, Statement};
