//! The download engine's bookkeeping: one streamed chunk at a time it
//! checks cancellation, accumulates the content hash, tracks per-part and
//! total byte counts, and computes the progress fraction to emit. The
//! network reads themselves happen in the embedding program, which feeds
//! each received chunk through here in order.

use vstd::prelude::*;

use crate::error::Error;
use crate::hashing::{absorbed, hash_ok, hex_encode, hex_matches, sha256_finalize, sha256_new, sha256_update};
use crate::install::InstallProgress;

verus! {

/// A progress fraction in [0, 1], kept as a ratio of bytes received to
/// bytes declared so no rounding is baked in.
#[derive(Clone, Copy, Debug, PartialEq, Eq, Structural)]
pub struct Fraction {
    pub num: u64,
    pub den: u64,
}

impl Fraction {
    /// A fraction denotes a value in [0, 1]: a positive denominator and a
    /// numerator no greater than it.
    pub open spec fn wf(&self) -> bool {
        1 <= self.den && self.num <= self.den
    }

    /// Whether the fraction equals one, i.e. the part is complete.
    pub open spec fn is_one(&self) -> bool {
        self.num == self.den
    }
}

/// The fraction reported after `bytes` bytes of a part whose remote
/// declared `total` bytes of content: bytes over total, clamped to one,
/// with a zero heartbeat when no content length was declared and when the
/// declared length is zero.
pub open spec fn frac_of(bytes: u64, total: Option<u64>) -> Fraction {
    match total {
        None => Fraction { num: 0, den: 1 },
        Some(t) => if t == 0 {
            Fraction { num: 0, den: 1 }
        } else {
            Fraction { num: if bytes <= t { bytes } else { t }, den: t }
        },
    }
}

/// Law: every reported fraction denotes a value in [0, 1].
pub proof fn lemma_frac_wf(bytes: u64, total: Option<u64>)
    ensures
        frac_of(bytes, total).wf(),
{
}

/// Law: within one part, with its declared length fixed, the reported
/// fraction never decreases as received bytes accumulate — progress only
/// climbs toward one.
pub proof fn lemma_frac_monotonic(b1: u64, b2: u64, total: Option<u64>)
    requires
        b1 <= b2,
    ensures
        frac_of(b1, total).den == frac_of(b2, total).den,
        frac_of(b1, total).num <= frac_of(b2, total).num,
{
}

/// The ordered concatenation of a sequence of parts: part i's bytes
/// immediately follow part i-1's.
pub open spec fn concat_parts(parts: Seq<Seq<u8>>) -> Seq<u8>
    decreases parts.len(),
{
    if parts.len() == 0 {
        Seq::<u8>::empty()
    } else {
        concat_parts(parts.drop_last()) + parts.last()
    }
}

/// The sum of the parts' lengths.
pub open spec fn sum_lens(parts: Seq<Seq<u8>>) -> nat
    decreases parts.len(),
{
    if parts.len() == 0 {
        0
    } else {
        sum_lens(parts.drop_last()) + parts.last().len()
    }
}

/// Law: the concatenated artifact's byte length equals the sum of each
/// part's byte length.
pub proof fn lemma_artifact_length(parts: Seq<Seq<u8>>)
    ensures
        concat_parts(parts).len() == sum_lens(parts),
    decreases parts.len(),
{
    if parts.len() > 0 {
        lemma_artifact_length(parts.drop_last());
    }
}

/// Streams one artifact: parts strictly in sequence, every byte both
/// written out and fed to the running hash, cancellation checked at chunk
/// granularity.
pub struct DownloadEngine {
    part_count: usize,
    parts_done: usize,
    in_part: bool,
    part_bytes: u64,
    part_len: Option<u64>,
    total_bytes: u64,
    hasher: sha2::Sha256,
    expected: Option<String>,
    parts_model: Ghost<Seq<Seq<u8>>>,
    cur_model: Ghost<Seq<u8>>,
}

impl DownloadEngine {
    /// The bytes of each completed part, in download order.
    pub closed spec fn parts(&self) -> Seq<Seq<u8>> {
        self.parts_model@
    }

    /// The bytes received so far of the part now streaming.
    pub closed spec fn current(&self) -> Seq<u8> {
        self.cur_model@
    }

    /// Every byte this run has received, in order: the artifact so far.
    pub open spec fn fed(&self) -> Seq<u8> {
        concat_parts(self.parts()) + self.current()
    }

    /// How many parts the run will fetch in all.
    pub closed spec fn spec_part_count(&self) -> int {
        self.part_count as int
    }

    /// How many parts have been completed.
    pub closed spec fn spec_parts_done(&self) -> int {
        self.parts_done as int
    }

    /// Whether a part is currently streaming.
    pub closed spec fn is_in_part(&self) -> bool {
        self.in_part
    }

    /// The content length the remote declared for the streaming part.
    pub closed spec fn spec_part_len(&self) -> Option<u64> {
        self.part_len
    }

    /// The hash the catalog declared for the whole artifact, if any.
    pub closed spec fn spec_expected(&self) -> Option<Seq<char>> {
        match self.expected {
            Some(ref s) => Some(s@),
            None => None,
        }
    }

    /// The engine's internal accounting is consistent: the hasher has
    /// absorbed exactly the artifact so far, and the byte counters mirror
    /// the model sequences.
    pub closed spec fn wf(&self) -> bool {
        &&& absorbed(self.hasher) == self.fed()
        &&& self.parts_model@.len() == self.parts_done as int
        &&& self.parts_done <= self.part_count
        &&& self.in_part ==> self.parts_done < self.part_count
        &&& !self.in_part ==> self.cur_model@.len() == 0
        &&& self.part_bytes as int == self.cur_model@.len()
        &&& self.total_bytes as int == self.fed().len()
    }

    /// A fresh engine for a run of `part_count` parts, verifying against
    /// `expected` (a case-insensitive hexadecimal digest) at the end if one
    /// was declared.
    pub fn new(part_count: usize, expected: Option<String>) -> (e: DownloadEngine)
        ensures
            e.wf(),
            e.parts() == Seq::<Seq<u8>>::empty(),
            e.current() == Seq::<u8>::empty(),
            e.spec_parts_done() == 0,
            e.spec_part_count() == part_count as int,
            !e.is_in_part(),
            e.spec_expected() == (match expected {
                Some(ref s) => Some(s@),
                None => None::<Seq<char>>,
            }),
    {
        let e = DownloadEngine {
            part_count,
            parts_done: 0,
            in_part: false,
            part_bytes: 0,
            part_len: None,
            total_bytes: 0,
            hasher: sha256_new(),
            expected,
            parts_model: Ghost(Seq::empty()),
            cur_model: Ghost(Seq::empty()),
        };
        proof {
            assert(e.fed() =~= Seq::<u8>::empty());
        }
        e
    }

    /// Opens the next part, recording the content length the remote
    /// declared, if any.
    pub fn begin_part(&mut self, content_len: Option<u64>)
        requires
            old(self).wf(),
            !old(self).is_in_part(),
            old(self).spec_parts_done() < old(self).spec_part_count(),
        ensures
            final(self).wf(),
            final(self).is_in_part(),
            final(self).parts() == old(self).parts(),
            final(self).current() == Seq::<u8>::empty(),
            final(self).fed() == old(self).fed(),
            final(self).spec_parts_done() == old(self).spec_parts_done(),
            final(self).spec_part_count() == old(self).spec_part_count(),
            final(self).spec_part_len() == content_len,
            final(self).spec_expected() == old(self).spec_expected(),
    {
        self.part_len = content_len;
        self.part_bytes = 0;
        self.in_part = true;
    }

    /// Takes one received chunk: if the cancellation token was observed
    /// set, refuses it untouched; otherwise absorbs it into the hash and
    /// the byte counts and reports the part's progress event.
    pub fn on_chunk(&mut self, chunk: &Vec<u8>, cancelled: bool) -> (r: Result<
        InstallProgress,
        Error,
    >)
        requires
            old(self).wf(),
            old(self).is_in_part(),
            old(self).fed().len() + chunk@.len() <= u64::MAX,
        ensures
            final(self).wf(),
            cancelled ==> r == Err::<InstallProgress, Error>(Error::Cancelled) && *final(self)
                == *old(self),
            !cancelled ==> {
                &&& final(self).is_in_part()
                &&& final(self).parts() == old(self).parts()
                &&& final(self).current() == old(self).current() + chunk@
                &&& final(self).fed() == old(self).fed() + chunk@
                &&& final(self).spec_parts_done() == old(self).spec_parts_done()
                &&& final(self).spec_part_count() == old(self).spec_part_count()
                &&& final(self).spec_part_len() == old(self).spec_part_len()
                &&& final(self).spec_expected() == old(self).spec_expected()
                &&& r == Ok::<InstallProgress, Error>(InstallProgress::PartProgress(
                    old(self).spec_parts_done() as usize,
                    frac_of((old(self).current().len() + chunk@.len()) as u64, old(self).spec_part_len()),
                ))
            },
    {
        if cancelled {
            return Err(Error::Cancelled);
        }
        proof {
            assert(self.fed().len() == concat_parts(self.parts()).len() + self.current().len());
        }
        sha256_update(&mut self.hasher, chunk);
        let len = chunk.len() as u64;
        self.part_bytes = self.part_bytes + len;
        self.total_bytes = self.total_bytes + len;
        self.cur_model = Ghost(self.cur_model@ + chunk@);
        proof {
            assert(final(self).fed() =~= old(self).fed() + chunk@);
        }
        let frac = match self.part_len {
            None => Fraction { num: 0, den: 1 },
            Some(t) => {
                if t == 0 {
                    Fraction { num: 0, den: 1 }
                } else {
                    Fraction { num: if self.part_bytes <= t { self.part_bytes } else { t }, den: t }
                }
            },
        };
        Ok(InstallProgress::PartProgress(self.parts_done, frac))
    }

    /// Closes the part now streaming: its bytes take their place as the
    /// next completed part of the artifact.
    pub fn end_part(&mut self)
        requires
            old(self).wf(),
            old(self).is_in_part(),
        ensures
            final(self).wf(),
            !final(self).is_in_part(),
            final(self).parts() == old(self).parts().push(old(self).current()),
            final(self).current() == Seq::<u8>::empty(),
            final(self).fed() == old(self).fed(),
            final(self).spec_parts_done() == old(self).spec_parts_done() + 1,
            final(self).spec_part_count() == old(self).spec_part_count(),
            final(self).spec_expected() == old(self).spec_expected(),
    {
        self.parts_model = Ghost(self.parts_model@.push(self.cur_model@));
        self.cur_model = Ghost(Seq::empty());
        self.parts_done = self.parts_done + 1;
        self.in_part = false;
        self.part_bytes = 0;
        self.part_len = None;
        proof {
            let p = old(self).parts();
            let c = old(self).current();
            assert(p.push(c).drop_last() =~= p);
            assert(concat_parts(p.push(c)) == concat_parts(p) + c);
            assert(final(self).fed() =~= old(self).fed());
        }
    }

    /// Verifies the completed artifact against the declared hash: with no
    /// declared hash every run passes; with one, exactly the runs whose
    /// accumulated digest matches it case-insensitively pass, and the rest
    /// fail as a checksum mismatch.
    pub fn finish(self) -> (r: Result<(), Error>)
        requires
            self.wf(),
            !self.is_in_part(),
            self.spec_parts_done() == self.spec_part_count(),
        ensures
            r == Ok::<(), Error>(()) <==> hash_ok(self.spec_expected(), self.fed()),
            r is Err ==> r == Err::<(), Error>(Error::ChecksumMismatch),
    {
        let DownloadEngine { hasher, expected, .. } = self;
        match expected {
            None => Ok(()),
            Some(h) => {
                let digest = sha256_finalize(hasher);
                let hex = hex_encode(&digest);
                if hex_matches(h.as_str(), &hex) {
                    Ok(())
                } else {
                    Err(Error::ChecksumMismatch)
                }
            },
        }
    }

    /// Polls the cancellation token and takes one received chunk: either
    /// the token was observed set — the chunk is refused and the engine
    /// left untouched — or the chunk is absorbed and its progress event
    /// returned. Which of the two happens depends on the shared flag at
    /// the moment of the poll, so only the disjunction is promised.
    pub fn process_chunk(
        &mut self,
        chunk: &Vec<u8>,
        token: &tokio_util::sync::CancellationToken,
    ) -> (r: Result<InstallProgress, Error>)
        requires
            old(self).wf(),
            old(self).is_in_part(),
            old(self).fed().len() + chunk@.len() <= u64::MAX,
        ensures
            final(self).wf(),
            r is Err ==> r == Err::<InstallProgress, Error>(Error::Cancelled) && *final(self)
                == *old(self),
            r is Ok ==> {
                &&& final(self).is_in_part()
                &&& final(self).parts() == old(self).parts()
                &&& final(self).current() == old(self).current() + chunk@
                &&& final(self).fed() == old(self).fed() + chunk@
                &&& final(self).spec_parts_done() == old(self).spec_parts_done()
                &&& final(self).spec_part_count() == old(self).spec_part_count()
                &&& final(self).spec_part_len() == old(self).spec_part_len()
                &&& final(self).spec_expected() == old(self).spec_expected()
                &&& r == Ok::<InstallProgress, Error>(InstallProgress::PartProgress(
                    old(self).spec_parts_done() as usize,
                    frac_of((old(self).current().len() + chunk@.len()) as u64, old(self).spec_part_len()),
                ))
            },
    {
        let cancelled = token.is_cancelled();
        self.on_chunk(chunk, cancelled)
    }

    /// The index the next progress event will carry: how many parts are
    /// already complete.
    pub fn part_index(&self) -> (i: usize)
        ensures
            i as int == self.spec_parts_done(),
    {
        self.parts_done
    }

    /// How many bytes the artifact holds so far.
    pub fn bytes_total(&self) -> (n: u64)
        requires
            self.wf(),
        ensures
            n as int == self.fed().len(),
    {
        self.total_bytes
    }
}

/// Law: once every part is closed, the artifact the engine accumulated is
/// exactly the ordered concatenation of its parts, and its length is the
/// sum of the parts' lengths.
pub proof fn lemma_complete_artifact(e: DownloadEngine)
    requires
        e.wf(),
        !e.is_in_part(),
    ensures
        e.fed() == concat_parts(e.parts()),
        e.fed().len() == sum_lens(e.parts()),
{
    assert(e.fed() =~= concat_parts(e.parts()));
    lemma_artifact_length(e.parts());
}

} // verus!
