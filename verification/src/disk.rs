//! External block devices as shown to the user. Enumerating them is the
//! embedding program's work (a shell primitive or a sysfs walk); it hands
//! each device's plain name and byte size here, and this module builds the
//! record the user sees: the /dev node path and a human-readable size.

use vstd::prelude::*;
use vstd::string::StringExecFns;

verus! {

/// The human-readable decimal rendering of a byte count, as
/// `humansize::format_size` writes it. It depends on the count alone, so
/// it is only named here.
pub uninterp spec fn human_size_of(bytes: u64) -> Seq<char>;

/// Relies on `humansize::format_size` with the `DECIMAL` options: the
/// rendered size is a function of the byte count alone.
#[verifier::external_body]
fn format_size_decimal(bytes: u64) -> (r: String)
    ensures
        r@ == human_size_of(bytes),
{
    humansize::format_size(bytes, humansize::DECIMAL)
}

/// One external, non-system block device: its kernel name, its size
/// rendered for humans, and its device-node path.
#[derive(Clone, Debug, PartialEq, Eq)]
pub struct BlockDevice {
    pub name: String,
    pub size: String,
    pub path: String,
}

impl BlockDevice {
    /// Builds the record for one enumerated device from its kernel name
    /// and its size in bytes.
    pub fn from_raw(name: String, size_bytes: u64) -> (d: BlockDevice)
        ensures
            d.name@ == name@,
            d.size@ == human_size_of(size_bytes),
            d.path@ == "/dev/"@ + name@,
    {
        let mut path = "/dev/".to_owned();
        path.append(name.as_str());
        let size = format_size_decimal(size_bytes);
        BlockDevice { name, size, path }
    }
}

} // verus!
