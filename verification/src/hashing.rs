//! Content-hash accumulation for the download engine.
//!
//! The digest itself comes from the `sha2` crate behind a small trusted
//! surface; everything around it — hex encoding of the digest and the
//! case-normalized comparison against the hash the catalog declared — is
//! verified code in this module.

use vstd::prelude::*;
use vstd::string::StrSliceExecFns;

use sha2::Digest;

verus! {

/// The SHA-256 digest of a byte sequence, as `sha2::Sha256` computes it.
/// The digest depends on the bytes alone, so it is only named here, never
/// spelled out; `HashState::finalize` is the one place it is produced.
pub uninterp spec fn sha256_of(bytes: Seq<u8>) -> Seq<u8>;

#[verifier::external_type_specification]
#[verifier::external_body]
pub struct ExSha256(sha2::Sha256);

/// The bytes a running hasher has absorbed so far, in order. A
/// `sha2::Sha256` value is opaque here, so its absorbed input is only
/// named; the three wrappers below say how each call changes it.
pub uninterp spec fn absorbed(h: sha2::Sha256) -> Seq<u8>;

/// Relies on `sha2::Sha256::new` (`digest::Digest::new`): a fresh hasher
/// has absorbed nothing.
#[verifier::external_body]
pub fn sha256_new() -> (h: sha2::Sha256)
    ensures
        absorbed(h) == Seq::<u8>::empty(),
{
    sha2::Sha256::new()
}

/// Relies on `digest::Digest::update`: feeding a chunk appends it to the
/// bytes the hasher has absorbed.
#[verifier::external_body]
pub fn sha256_update(h: &mut sha2::Sha256, chunk: &Vec<u8>)
    ensures
        absorbed(*final(h)) == absorbed(*old(h)) + chunk@,
{
    h.update(chunk.as_slice());
}

/// Relies on `digest::Digest::finalize`: the result is the 32-byte SHA-256
/// digest of exactly the bytes the hasher has absorbed.
#[verifier::external_body]
pub fn sha256_finalize(h: sha2::Sha256) -> (d: Vec<u8>)
    ensures
        d@ == sha256_of(absorbed(h)),
        d@.len() == 32,
{
    h.finalize().to_vec()
}

/// Whether a downloaded artifact passes hash verification: with no
/// declared hash every artifact passes; with one, exactly the artifacts
/// whose SHA-256 digest, rendered in hexadecimal, equals the declared
/// hash's case-normalized form pass.
pub open spec fn hash_ok(expected: Option<Seq<char>>, data: Seq<u8>) -> bool {
    match expected {
        None => true,
        Some(h) => lower_hex(h) == hex_of(sha256_of(data)),
    }
}

/// The lower-case hexadecimal digit for a value below sixteen.
pub open spec fn hex_digit_char(n: u8) -> char {
    "0123456789abcdef"@[n as int]
}

/// The lower-case hexadecimal rendering of a byte sequence: two digits per
/// byte, high nibble first.
pub open spec fn hex_of(bytes: Seq<u8>) -> Seq<char>
    decreases bytes.len(),
{
    if bytes.len() == 0 {
        Seq::<char>::empty()
    } else {
        hex_of(bytes.drop_last()) + seq![
            hex_digit_char((bytes.last() >> 4) as u8),
            hex_digit_char((bytes.last() & 0xf) as u8),
        ]
    }
}

fn hex_digit_str(n: u8) -> (s: &'static str)
    requires
        n < 16,
    ensures
        s@ == seq![hex_digit_char(n)],
{
    let table = "0123456789abcdef";
    proof {
        reveal_strlit("0123456789abcdef");
        assert(table.is_ascii());
    }
    let s = table.substring_ascii(n as usize, n as usize + 1);
    proof {
        assert(s@ =~= seq![hex_digit_char(n)]);
    }
    s
}

/// Renders a byte sequence as lower-case hexadecimal.
pub fn hex_encode(bytes: &Vec<u8>) -> (r: String)
    ensures
        r@ == hex_of(bytes@),
{
    let mut out = String::new();
    let mut i: usize = 0;
    while i < bytes.len()
        invariant
            i <= bytes@.len(),
            out@ == hex_of(bytes@.take(i as int)),
        decreases bytes@.len() - i,
    {
        let b = bytes[i];
        let hi = b >> 4;
        let lo = b & 0xf;
        proof {
            assert(b >> 4 < 16) by (bit_vector);
            assert(b & 0xf < 16) by (bit_vector);
        }
        out.append(hex_digit_str(hi));
        out.append(hex_digit_str(lo));
        proof {
            let taken = bytes@.take(i + 1 as int);
            assert(taken.drop_last() =~= bytes@.take(i as int));
            assert(taken.last() == b);
            assert(out@ == hex_of(taken));
        }
        i = i + 1;
    }
    proof {
        assert(bytes@.take(bytes@.len() as int) =~= bytes@);
    }
    out
}

/// Maps an upper-case hexadecimal digit to its lower-case form and leaves
/// every other character alone.
pub open spec fn lower_hex_char(c: char) -> char {
    if c == 'A' {
        'a'
    } else if c == 'B' {
        'b'
    } else if c == 'C' {
        'c'
    } else if c == 'D' {
        'd'
    } else if c == 'E' {
        'e'
    } else if c == 'F' {
        'f'
    } else {
        c
    }
}

/// Case-normalizes a character sequence as a hexadecimal string: upper-case
/// hex digits become lower-case, everything else is unchanged.
pub open spec fn lower_hex(s: Seq<char>) -> Seq<char> {
    Seq::new(s.len(), |i: int| lower_hex_char(s[i]))
}

fn lower_char(c: char) -> (r: char)
    ensures
        r == lower_hex_char(c),
{
    if c == 'A' {
        'a'
    } else if c == 'B' {
        'b'
    } else if c == 'C' {
        'c'
    } else if c == 'D' {
        'd'
    } else if c == 'E' {
        'e'
    } else if c == 'F' {
        'f'
    } else {
        c
    }
}

/// Decides whether a declared hash, once case-normalized, equals an
/// already lower-case hexadecimal rendering of a computed digest.
pub fn hex_matches(declared: &str, computed: &String) -> (r: bool)
    ensures
        r == (lower_hex(declared@) == computed@),
{
    let n = declared.unicode_len();
    let m = computed.as_str().unicode_len();
    if n != m {
        proof {
            assert(lower_hex(declared@).len() != computed@.len());
        }
        return false;
    }
    let mut i: usize = 0;
    while i < n
        invariant
            n == declared@.len(),
            n == computed@.len(),
            i <= n,
            forall|j: int| 0 <= j < i ==> lower_hex_char(declared@[j]) == computed@[j],
        decreases n - i,
    {
        let c = lower_char(declared.get_char(i));
        let d = computed.as_str().get_char(i);
        if c != d {
            proof {
                assert(lower_hex(declared@)[i as int] != computed@[i as int]);
            }
            return false;
        }
        i = i + 1;
    }
    proof {
        assert(lower_hex(declared@) =~= computed@);
    }
    true
}

} // verus!
