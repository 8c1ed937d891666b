//! The write-once cell that holds the rendering engine's controller.
//!
//! The controller is created asynchronously, after the window exists. Until
//! then the cell is empty, and everything that needs the controller has to
//! look first.

use vstd::prelude::*;
use once_cell::unsync::OnceCell;

verus! {

#[verifier::external_type_specification]
#[verifier::external_body]
#[verifier::reject_recursive_types(T)]
pub struct ExOnceCell<T>(OnceCell<T>);

/// What a cell holds: nothing, or the one value it was ever given.
pub uninterp spec fn cell_value(cell: OnceCell<usize>) -> Option<usize>;

/// `OnceCell::new`: the new cell is empty.
#[verifier::external_body]
pub(crate) fn cell_new() -> (cell: OnceCell<usize>)
    ensures
        cell_value(cell) is None,
{
    OnceCell::new()
}

/// `OnceCell::get`: the value in the cell, if it was set, and the cell is left
/// as it was.
#[verifier::external_body]
pub(crate) fn cell_get(cell: &OnceCell<usize>) -> (value: Option<usize>)
    ensures
        value == cell_value(*cell),
{
    cell.get().copied()
}

/// `OnceCell::set`: an empty cell takes the value and answers `Ok`; a full
/// cell keeps what it has and hands the rejected value back in `Err`.
#[verifier::external_body]
pub(crate) fn cell_set(cell: &mut OnceCell<usize>, value: usize) -> (outcome: Result<(), usize>)
    ensures
        outcome == (if cell_value(*old(cell)) is None { Ok::<(), usize>(()) } else { Err::<(), usize>(value) }),
        cell_value(*final(cell)) == (if outcome is Ok { Some(value) } else { cell_value(*old(cell)) }),
{
    cell.set(value)
}

} // verus!
