//! Partition-resize bounds checking. Querying the bounds and performing
//! the shrink are the shell primitive's work, done by the embedding
//! program; the decision in between — whether a proposed size is safe at
//! all — is made here, and constructing a `ResizeRequest` is the only path
//! to the mutating call.

use vstd::prelude::*;

use crate::error::Error;

verus! {

pub const GIGABYTE: u64 = 1_000_000_000u64;

/// Shrink bounds for a host partition, in bytes, queried fresh per resize
/// attempt: they depend on the space occupied at that moment.
#[derive(Clone, Copy, Debug, PartialEq, Eq, Structural)]
pub struct ResizeLimits {
    pub min_size_no_guard: u64,
    pub max_size: u64,
}

/// A validated resize order: the partition to shrink and the new size,
/// already checked against freshly queried bounds. The embedding program
/// invokes the resize primitive only with one of these in hand.
#[derive(Clone, Debug, PartialEq, Eq)]
pub struct ResizeRequest {
    pub disk: String,
    pub new_size: u64,
}

/// Whether a proposed size lies in the closed interval the bounds allow.
pub open spec fn in_bounds(limits: ResizeLimits, new_size: u64) -> bool {
    limits.min_size_no_guard <= new_size <= limits.max_size
}

/// Validates a proposed shrink of `disk` to `new_size` bytes against the
/// freshly queried `limits`: a size outside the closed interval is
/// rejected locally, before the resize primitive is ever invoked, and only
/// an accepted size yields the request that invokes it.
pub fn resize_apfs_volume(disk: &str, new_size: u64, limits: ResizeLimits) -> (r: Result<
    ResizeRequest,
    Error,
>)
    ensures
        match r {
            Ok(req) => in_bounds(limits, new_size) && req.disk@ == disk@ && req.new_size
                == new_size,
            Err(e) => !in_bounds(limits, new_size) && e == Error::ResizeOutOfRange,
        },
{
    if new_size < limits.min_size_no_guard || new_size > limits.max_size {
        return Err(Error::ResizeOutOfRange);
    }
    Ok(ResizeRequest { disk: disk.to_owned(), new_size })
}

/// Whether the queried bounds leave a workable shrink range: ordered, and
/// more than a gigabyte apart.
pub open spec fn spec_can_shrink(limits: ResizeLimits) -> bool {
    limits.min_size_no_guard < limits.max_size && limits.max_size - limits.min_size_no_guard
        > GIGABYTE
}

/// Decides whether the shrink slider has room to offer: the queried bounds
/// must be ordered and at least a gigabyte apart.
pub fn can_shrink(limits: ResizeLimits) -> (r: bool)
    ensures
        r == spec_can_shrink(limits),
{
    limits.min_size_no_guard < limits.max_size && limits.max_size - limits.min_size_no_guard
        > GIGABYTE
}

} // verus!
