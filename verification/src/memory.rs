use vstd::prelude::*;

use crate::errors::TricoreTargetError;

verus! {

/// Judge the outcome of one hardware memory read of `requested` bytes.
/// A transport fault or a short answer is a memory-access failure — the
/// non-fatal kind, the session survives it — and only an answer of exactly
/// the requested length is handed on, so the caller's buffer is always
/// filled completely or not at all.
pub fn memory_read_outcome(requested: usize, bytes: Option<Vec<u8>>) -> (r: Result<
    Vec<u8>,
    TricoreTargetError,
>)
    ensures
        r is Ok <==> (bytes matches Some(b) && b@.len() == requested),
        r matches Ok(b) ==> bytes matches Some(given) && b@ == given@ && b@.len() == requested,
        r is Err ==> r == Err::<Vec<u8>, TricoreTargetError>(
            TricoreTargetError::MemoryAccessFailure,
        ),
{
    match bytes {
        Some(b) => {
            if b.len() == requested {
                Ok(b)
            } else {
                Err(TricoreTargetError::MemoryAccessFailure)
            }
        },
        None => Err(TricoreTargetError::MemoryAccessFailure),
    }
}

/// Judge the outcome of one hardware memory write: a refused or faulted
/// write is the non-fatal memory-access failure.
pub fn memory_write_outcome(ok: bool) -> (r: Result<(), TricoreTargetError>)
    ensures
        ok <==> r == Ok::<(), TricoreTargetError>(()),
        !ok ==> r == Err::<(), TricoreTargetError>(TricoreTargetError::MemoryAccessFailure),
{
    if ok {
        Ok(())
    } else {
        Err(TricoreTargetError::MemoryAccessFailure)
    }
}

} // verus!
