//! The decompressor's plan. The archive extraction itself is file I/O done
//! by the embedding program with the zip crate; this module decides what
//! that stage must do for a given scheme, and derives the sibling
//! temporary path that protects the source artifact from a failed
//! extraction.

use vstd::prelude::*;
use vstd::string::StringExecFns;

use crate::distro::CompressionAlgorithim;

verus! {

/// What the decompress stage does for one run: nothing at all when no
/// scheme was declared, or a single-entry archive extraction through the
/// temporary sibling path, atomically renamed over the artifact on
/// success.
#[derive(Clone, Copy, Debug, PartialEq, Eq, Structural)]
pub enum DecompressAction {
    PassThrough,
    ExtractZip,
}

/// The stage's plan for a declared scheme. Unsupported tags were already
/// rejected when the descriptor was parsed, so every reachable scheme has
/// a plan.
pub fn decompress_action(compression: &Option<CompressionAlgorithim>) -> (r: DecompressAction)
    ensures
        r == (match compression {
            None => DecompressAction::PassThrough,
            Some(CompressionAlgorithim::Zip) => DecompressAction::ExtractZip,
        }),
{
    match compression {
        None => DecompressAction::PassThrough,
        Some(CompressionAlgorithim::Zip) => DecompressAction::ExtractZip,
    }
}

/// The sibling path the extraction writes to before atomically replacing
/// the artifact: the artifact's own path with a fixed suffix appended.
pub fn temp_path(path: &str) -> (r: String)
    ensures
        r@ == path@ + ".extract"@,
{
    let mut s = path.to_owned();
    s.append(".extract");
    s
}

} // verus!
