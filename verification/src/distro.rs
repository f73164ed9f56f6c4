//! Distro descriptors: what the catalog declares about one installable
//! distribution, validated once at parse time and immutable afterwards.

use vstd::prelude::*;
use vstd::string::StrSliceExecFns;

use crate::error::Error;

verus! {

/// Compares two string slices character by character.
pub fn str_eq(a: &str, b: &str) -> (r: bool)
    ensures
        r == (a@ == b@),
{
    let n = a.unicode_len();
    let m = b.unicode_len();
    if n != m {
        proof {
            assert(a@.len() != b@.len());
        }
        return false;
    }
    let mut i: usize = 0;
    while i < n
        invariant
            n == a@.len(),
            n == b@.len(),
            i <= n,
            forall|j: int| 0 <= j < i ==> a@[j] == b@[j],
        decreases n - i,
    {
        if a.get_char(i) != b.get_char(i) {
            proof {
                assert(a@[i as int] != b@[i as int]);
            }
            return false;
        }
        i = i + 1;
    }
    proof {
        assert(a@ =~= b@);
    }
    true
}

/// The one compression scheme the decompressor implements: an archive with
/// a single entry, extracted in place.
#[derive(Clone, Copy, Debug, PartialEq, Eq, Structural)]
pub enum CompressionAlgorithim {
    Zip,
}

/// One installable distribution as the catalog declares it: a name, the
/// ordered list of part locators whose concatenation is the image, an
/// optional compression scheme, and an optional expected content hash
/// (hexadecimal, case-insensitive) over the concatenated parts.
#[derive(Clone, Debug, PartialEq, Eq)]
pub struct Distro {
    pub name: String,
    pub iso: Vec<String>,
    pub iso_compression: Option<CompressionAlgorithim>,
    pub sha256: Option<String>,
}

/// What a declared compression tag means: absent is "no compression",
/// `"zip"` is the supported scheme, and anything else is a
/// configuration-time failure, never attempted.
pub open spec fn parse_tag(tag: Option<Seq<char>>) -> Result<Option<CompressionAlgorithim>, Error> {
    match tag {
        None => Ok(None),
        Some(s) => if s == "zip"@ {
            Ok(Some(CompressionAlgorithim::Zip))
        } else {
            Err(Error::UnsupportedCompression)
        },
    }
}

impl Distro {
    /// Builds a descriptor from the plain fields of one catalog record,
    /// rejecting a compression tag that no implementation supports.
    pub fn from_record(
        name: String,
        iso: Vec<String>,
        compression: Option<String>,
        sha256: Option<String>,
    ) -> (r: Result<Distro, Error>)
        ensures
            match parse_tag(match compression {
                Some(ref s) => Some(s@),
                None => None,
            }) {
                Ok(c) => r == Ok::<Distro, Error>(Distro { name, iso, iso_compression: c, sha256 }),
                Err(e) => r == Err::<Distro, Error>(e),
            },
    {
        let iso_compression = match &compression {
            None => None,
            Some(s) => {
                if str_eq(s.as_str(), "zip") {
                    Some(CompressionAlgorithim::Zip)
                } else {
                    return Err(Error::UnsupportedCompression);
                }
            },
        };
        Ok(Distro { name, iso, iso_compression, sha256 })
    }

    /// How many parts must be fetched and concatenated for this distro.
    pub fn part_count(&self) -> (n: usize)
        ensures
            n == self.iso@.len(),
    {
        self.iso.len()
    }
}

} // verus!
