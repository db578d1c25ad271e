use vstd::prelude::*;
use crate::error::PipelineError;

verus! {

/// The name of the sorting kernel's entry point.
pub const SORT_ENTRY_POINT: &'static str = "sort_tile";

/// `name` is one of the functions of a compiled program.
pub open spec fn has_entry_point(functions: Seq<String>, name: Seq<char>) -> bool {
    exists|i: int| 0 <= i < functions.len() && #[trigger] functions[i]@ == name
}

/// Finds the function `name` among those of a compiled program and returns its
/// position, the first if several share the name. Fails with
/// `EntryPointNotFound(name)` when the program has no such function.
pub fn find_entry_point(functions: &Vec<String>, name: &String) -> (r: Result<usize, PipelineError>)
    ensures
        r is Ok <==> has_entry_point(functions@, name@),
        r matches Ok(i) ==> i < functions@.len() && functions@[i as int]@ == name@ && forall|j: int|
            0 <= j < i ==> #[trigger] functions@[j]@ != name@,
        r matches Err(e) ==> e == PipelineError::EntryPointNotFound(*name),
{
    let mut i: usize = 0;
    while i < functions.len()
        invariant
            i <= functions@.len(),
            forall|j: int| 0 <= j < i ==> #[trigger] functions@[j]@ != name@,
        decreases functions@.len() - i,
    {
        if functions[i] == *name {
            return Ok(i);
        }
        i = i + 1;
    }
    Err(PipelineError::EntryPointNotFound(name.clone()))
}

} // verus!
