use vstd::prelude::*;
use vstd::string::StringExecFns;
use crate::error::BrainAIError;

verus! {

/// The common length of two vectors that are compared component by
/// component; vectors of different lengths are refused.
pub fn paired_len<T>(a: &[T], b: &[T]) -> (r: Result<usize, BrainAIError>)
    ensures
        a@.len() == b@.len() <==> r is Ok,
        r is Ok ==> r->Ok_0 == a@.len(),
        r is Err ==> (match r->Err_0 {
            BrainAIError::Other(m) => m@ == "Vectors must have the same length"@,
            _ => false,
        }),
{
    if a.len() == b.len() {
        Ok(a.len())
    } else {
        Err(BrainAIError::Other(String::from_str("Vectors must have the same length")))
    }
}

} // verus!
