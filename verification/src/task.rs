//! Nodes and the handles of the tasks that deliver to them.

use async_task::{FallibleTask, Task};
use vstd::prelude::*;

verus! {

/// Identifier of a node.
#[derive(Debug, Clone, Copy, PartialEq, Eq, Structural, PartialOrd, Ord, Hash)]
pub struct NodeId(pub u64);

/// `async_task::Task`: the handle of a spawned task. Dropping the handle
/// cancels the task. Nothing inside a handle is visible here.
#[verifier::external_type_specification]
#[verifier::external_body]
#[verifier::reject_recursive_types(T)]
#[verifier::reject_recursive_types(M)]
pub struct ExTask<T, M>(Task<T, M>);

/// `async_task::FallibleTask`: a task handle that yields nothing instead
/// of panicking when its task was cancelled. Dropping the handle cancels
/// the task. Nothing inside a handle is visible here.
#[verifier::external_type_specification]
#[verifier::external_body]
#[verifier::reject_recursive_types(T)]
#[verifier::reject_recursive_types(M)]
pub struct ExFallibleTask<T, M>(FallibleTask<T, M>);

/// `async_task::Task::fallible`: turns a task handle into a fallible one.
/// Nothing is claimed of the result.
pub assume_specification<T, M>[ Task::<T, M>::fallible ](task: Task<T, M>) -> (handle: FallibleTask<
    T,
    M,
>)
;

} // verus!
