//! The fixed-capacity lists the graph is stored in.
//!
//! The lists are `heapless::Vec`s, which keep their items in place and never
//! allocate. Verus does not look inside them: what a list holds is named by
//! an uninterpreted function, one per item type, and each method the library
//! calls gets a small wrapper whose contract is taken on trust from the
//! method's source. Nothing else in the crate is trusted.

use crate::data_format::{MAX_CHECKS_PER_STATE, MAX_COMMANDS_PER_STATE, MAX_STATES};
use crate::graph::{Check, Command, State};
use vstd::prelude::*;

verus! {

/// `heapless::Vec`, a vector whose capacity `N` is part of its type.
#[verifier::external_type_specification]
#[verifier::external_body]
#[verifier::reject_recursive_types(T)]
pub struct ExBoundedVec<T, const N: usize>(heapless::Vec<T, N>);

/// The checks a list holds, in the order in which they were pushed.
pub uninterp spec fn check_items(list: heapless::Vec<Check, MAX_CHECKS_PER_STATE>) -> Seq<Check>;

/// The commands a list holds, in the order in which they were pushed.
pub uninterp spec fn command_items(list: heapless::Vec<Command, MAX_COMMANDS_PER_STATE>) -> Seq<
    Command,
>;

/// The states a list holds, in the order in which they were pushed.
pub uninterp spec fn state_items(list: heapless::Vec<State, MAX_STATES>) -> Seq<State>;

/// `heapless::Vec::new` for a list of checks: the new list holds nothing.
#[verifier::external_body]
pub(crate) fn checks_new() -> (list: heapless::Vec<Check, MAX_CHECKS_PER_STATE>)
    ensures
        check_items(list) == Seq::<Check>::empty(),
{
    heapless::Vec::new()
}

/// `heapless::Vec::push` for a list of checks. A list below its capacity
/// takes the item at its end and answers `Ok`; a full list is left as it was
/// and hands the item back in `Err`.
#[verifier::external_body]
pub(crate) fn checks_push(
    list: &mut heapless::Vec<Check, MAX_CHECKS_PER_STATE>,
    item: Check,
) -> (r: Result<(), Check>)
    ensures
        r is Ok <==> check_items(*old(list)).len() < MAX_CHECKS_PER_STATE,
        r is Ok ==> check_items(*final(list)) == check_items(*old(list)).push(item),
        r is Err ==> r->Err_0 == item && check_items(*final(list)) == check_items(*old(list)),
{
    list.push(item)
}

/// `heapless::Vec::as_slice` for a list of checks: the slice is the list's
/// items in order.
#[verifier::external_body]
pub(crate) fn checks_as_slice(list: &heapless::Vec<Check, MAX_CHECKS_PER_STATE>) -> (items: &[Check])
    ensures
        items@ == check_items(*list),
{
    list.as_slice()
}

/// `heapless::Vec::new` for a list of commands: the new list holds nothing.
#[verifier::external_body]
pub(crate) fn commands_new() -> (list: heapless::Vec<Command, MAX_COMMANDS_PER_STATE>)
    ensures
        command_items(list) == Seq::<Command>::empty(),
{
    heapless::Vec::new()
}

/// `heapless::Vec::push` for a list of commands. A list below its capacity
/// takes the item at its end and answers `Ok`; a full list is left as it was
/// and hands the item back in `Err`.
#[verifier::external_body]
pub(crate) fn commands_push(
    list: &mut heapless::Vec<Command, MAX_COMMANDS_PER_STATE>,
    item: Command,
) -> (r: Result<(), Command>)
    ensures
        r is Ok <==> command_items(*old(list)).len() < MAX_COMMANDS_PER_STATE,
        r is Ok ==> command_items(*final(list)) == command_items(*old(list)).push(item),
        r is Err ==> r->Err_0 == item && command_items(*final(list)) == command_items(*old(list)),
{
    list.push(item)
}

/// `heapless::Vec::as_slice` for a list of commands: the slice is the list's
/// items in order.
#[verifier::external_body]
pub(crate) fn commands_as_slice(list: &heapless::Vec<Command, MAX_COMMANDS_PER_STATE>) -> (items:
    &[Command])
    ensures
        items@ == command_items(*list),
{
    list.as_slice()
}

/// `heapless::Vec::new` for a list of states: the new list holds nothing.
#[verifier::external_body]
pub(crate) fn states_new() -> (list: heapless::Vec<State, MAX_STATES>)
    ensures
        state_items(list) == Seq::<State>::empty(),
{
    heapless::Vec::new()
}

/// `heapless::Vec::push` for a list of states. A list below its capacity
/// takes the item at its end and answers `Ok`; a full list is left as it was
/// and hands the item back in `Err`.
#[verifier::external_body]
pub(crate) fn states_push(list: &mut heapless::Vec<State, MAX_STATES>, item: State) -> (r: Result<
    (),
    State,
>)
    ensures
        r is Ok <==> state_items(*old(list)).len() < MAX_STATES,
        r is Ok ==> state_items(*final(list)) == state_items(*old(list)).push(item),
        r is Err ==> r->Err_0 == item && state_items(*final(list)) == state_items(*old(list)),
{
    list.push(item)
}

/// `heapless::Vec::as_slice` for a list of states: the slice is the list's
/// items in order.
#[verifier::external_body]
pub(crate) fn states_as_slice(list: &heapless::Vec<State, MAX_STATES>) -> (items: &[State])
    ensures
        items@ == state_items(*list),
{
    list.as_slice()
}

} // verus!
