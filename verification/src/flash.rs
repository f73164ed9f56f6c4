//! The flasher's decisions and its byte-level model. The real device copy
//! is sequential I/O done by the embedding program; here stand the up-front
//! size check that rejects an artifact too large for its device, and a
//! verified copy onto an in-memory device buffer with the same semantics:
//! bytes land at offset zero, the device's tail is left as it was.

use vstd::prelude::*;

use crate::error::Error;

verus! {

/// Decides up front whether an artifact fits its target device; an
/// artifact longer than the device is rejected before any byte is written.
pub fn validate_flash(artifact_len: u64, device_size: u64) -> (r: Result<(), Error>)
    ensures
        r == Ok::<(), Error>(()) <==> artifact_len <= device_size,
        r is Err ==> r == Err::<(), Error>(Error::FlashFailed),
{
    if artifact_len <= device_size {
        Ok(())
    } else {
        Err(Error::FlashFailed)
    }
}

/// Copies the artifact byte-for-byte onto a fixed-size device, starting at
/// offset zero: afterwards the device holds the artifact followed by its
/// own former tail. An artifact longer than the device is rejected up
/// front and the device is untouched.
pub fn flash_into(artifact: &Vec<u8>, device: &mut Vec<u8>) -> (r: Result<(), Error>)
    ensures
        artifact@.len() <= old(device)@.len() ==> r == Ok::<(), Error>(()) && final(device)@
            == artifact@ + old(device)@.skip(artifact@.len() as int),
        artifact@.len() > old(device)@.len() ==> r == Err::<(), Error>(Error::FlashFailed)
            && final(device)@ == old(device)@,
{
    if artifact.len() > device.len() {
        return Err(Error::FlashFailed);
    }
    let mut i: usize = 0;
    while i < artifact.len()
        invariant
            i <= artifact@.len() <= device@.len(),
            device@.len() == old(device)@.len(),
            forall|j: int| 0 <= j < i ==> device@[j] == artifact@[j],
            forall|j: int| i <= j < device@.len() ==> device@[j] == old(device)@[j],
        decreases artifact@.len() - i,
    {
        let b = artifact[i];
        device.set(i, b);
        i = i + 1;
    }
    proof {
        assert(device@ =~= artifact@ + old(device)@.skip(artifact@.len() as int));
    }
    Ok(())
}

} // verus!
