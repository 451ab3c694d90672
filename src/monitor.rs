use crate::error::PreviewError;
use vstd::prelude::*;

verus! {

/// Some monitor in the enumeration carries identifier `id`.
pub open spec fn has_monitor(ids: Seq<String>, id: Seq<char>) -> bool {
    exists|j: int| 0 <= j < ids.len() && (#[trigger] ids[j])@ == id
}

/// Resolves `monitor_id` against the identifiers of the available monitors,
/// each in its canonical string form, and returns the position of the first
/// monitor that carries it. When none does, the error names the identifier.
pub fn find_monitor(ids: &Vec<String>, monitor_id: &String) -> (r: Result<usize, PreviewError>)
    ensures
        r is Ok <==> has_monitor(ids@, monitor_id@),
        r is Ok ==> ({
            let i = r->Ok_0 as int;
            &&& 0 <= i < ids@.len()
            &&& ids@[i]@ == monitor_id@
            &&& forall|j: int| 0 <= j < i ==> (#[trigger] ids@[j])@ != monitor_id@
        }),
        r is Err ==> (r->Err_0 is NotFound && r->Err_0->NotFound_0@ == monitor_id@),
{
    let mut i: usize = 0;
    while i < ids.len()
        invariant
            0 <= i <= ids@.len(),
            forall|j: int| 0 <= j < i ==> (#[trigger] ids@[j])@ != monitor_id@,
        decreases ids@.len() - i,
    {
        if ids[i].eq(monitor_id) {
            return Ok(i);
        }
        i = i + 1;
    }
    Err(PreviewError::NotFound(monitor_id.clone()))
}

} // verus!
