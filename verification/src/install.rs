//! The install orchestrator: settings, progress events, and the staged
//! state machine that sequences download, decompression, resize and flash.

use vstd::prelude::*;

use crate::distro::Distro;
use crate::download::Fraction;
use crate::error::Error;
use crate::hashing::hash_ok;

verus! {

/// One element of the linear progress stream of a run.
///
/// A run emits `Started` first, then `PartProgress` while downloading, and
/// ends with exactly one of `Finished` or `Failed`; cancellation surfaces
/// as `Failed(Error::Cancelled)`.
#[derive(Clone, Copy, Debug, PartialEq, Eq, Structural)]
pub enum InstallProgress {
    /// The run began; the payload is how many parts will be downloaded.
    Started(usize),
    /// A chunk of the given part arrived; the fraction is the part's
    /// received bytes over its declared content length.
    PartProgress(usize, Fraction),
    /// The run reached its end with every requested stage done.
    Finished,
    /// The run ended early with the originating stage's classification.
    Failed(Error),
}

impl InstallProgress {
    /// Whether this event ends a run's stream.
    pub open spec fn is_terminal(&self) -> bool {
        self is Finished || self is Failed
    }
}

/// Where one run writes the finished image: a plain file at a path, or a
/// block device named by its identifier.
#[derive(Clone, Debug, PartialEq, Eq)]
pub enum Destination {
    File(String),
    Device(String),
}

/// Everything one run needs, committed before it starts and never mutated
/// afterwards; a fresh run takes a fresh value.
#[derive(Clone, Debug, PartialEq, Eq)]
pub struct InstallSettings {
    pub distro: Distro,
    pub destination: Destination,
    pub macos_size: Option<u64>,
}

impl InstallSettings {
    /// Commits the user's choices: the distro to install, where its image
    /// goes, and the host partition's target size if it is to shrink.
    pub fn new(distro: Distro, destination: Destination, macos_size: Option<u64>) -> (r:
        InstallSettings)
        ensures
            r.distro == distro,
            r.destination == destination,
            r.macos_size == macos_size,
    {
        InstallSettings { distro, destination, macos_size }
    }
}

/// The orchestrator's stages, strictly forward-progressing with one
/// absorbing end state.
#[derive(Clone, Copy, Debug, PartialEq, Eq, Structural)]
pub enum InstallStep {
    Start,
    DownloadIso,
    FlashIso,
    ResizeMacos,
    Finished,
}

/// One run of the staged install pipeline. The embedding program performs
/// each stage's outside work and reports its outcome together with the
/// cancellation token's observed state; this machine decides every
/// transition and every emitted event.
pub struct Installer {
    pub step: InstallStep,
    pub settings: InstallSettings,
}

/// What the machine does when asked to begin: a token observed set before
/// the run starts ends it at once, without ever entering the download
/// stage; otherwise the run announces its part count and downloads.
pub open spec fn next_at_start(s: Installer, cancelled: bool) -> (InstallStep, InstallProgress) {
    if cancelled {
        (InstallStep::Finished, InstallProgress::Failed(Error::Cancelled))
    } else {
        (
            InstallStep::DownloadIso,
            InstallProgress::Started(s.settings.distro.iso@.len() as usize),
        )
    }
}

/// What the machine does with the download-and-decompress stage's outcome:
/// an observed cancellation ends the run as cancelled whatever the stage
/// reported; a failure ends it with that failure; success flashes next
/// when the destination is a device and is the whole run when it is a
/// plain file.
pub open spec fn next_after_download(s: Installer, outcome: Result<(), Error>, cancelled: bool) -> (
    InstallStep,
    Option<InstallProgress>,
) {
    if cancelled {
        (InstallStep::Finished, Some(InstallProgress::Failed(Error::Cancelled)))
    } else {
        match outcome {
            Err(e) => (InstallStep::Finished, Some(InstallProgress::Failed(e))),
            Ok(_) => match s.settings.destination {
                Destination::File(_) => (InstallStep::Finished, Some(InstallProgress::Finished)),
                Destination::Device(_) => (InstallStep::FlashIso, None),
            },
        }
    }
}

/// What the machine does with the flash stage's outcome: cancellation
/// takes precedence, a failure ends the run, success moves on to the
/// resize stage.
pub open spec fn next_after_flash(s: Installer, outcome: Result<(), Error>, cancelled: bool) -> (
    InstallStep,
    Option<InstallProgress>,
) {
    if cancelled {
        (InstallStep::Finished, Some(InstallProgress::Failed(Error::Cancelled)))
    } else {
        match outcome {
            Err(e) => (InstallStep::Finished, Some(InstallProgress::Failed(e))),
            Ok(_) => (InstallStep::ResizeMacos, None),
        }
    }
}

/// What the machine does with the resize stage's outcome; this stage is
/// always the last, so every answer is terminal.
pub open spec fn next_after_resize(s: Installer, outcome: Result<(), Error>, cancelled: bool) -> (
    InstallStep,
    InstallProgress,
) {
    if cancelled {
        (InstallStep::Finished, InstallProgress::Failed(Error::Cancelled))
    } else {
        match outcome {
            Err(e) => (InstallStep::Finished, InstallProgress::Failed(e)),
            Ok(_) => (InstallStep::Finished, InstallProgress::Finished),
        }
    }
}

impl Installer {
    /// A run poised at its beginning.
    pub fn new(settings: InstallSettings) -> (r: Installer)
        ensures
            r.step == InstallStep::Start,
            r.settings == settings,
    {
        Installer { step: InstallStep::Start, settings }
    }

    /// Begins the run. If the token was observed set before anything
    /// happened, the run ends cancelled without entering the download
    /// stage — so no network request is ever owed.
    pub fn start(&mut self, cancelled: bool) -> (ev: InstallProgress)
        requires
            old(self).step == InstallStep::Start,
        ensures
            final(self).settings == old(self).settings,
            (final(self).step, ev) == next_at_start(*old(self), cancelled),
            ev.is_terminal() <==> final(self).step == InstallStep::Finished,
    {
        if cancelled {
            self.step = InstallStep::Finished;
            InstallProgress::Failed(Error::Cancelled)
        } else {
            self.step = InstallStep::DownloadIso;
            InstallProgress::Started(self.settings.distro.part_count())
        }
    }

    /// Takes the outcome of the download-and-decompress stage.
    pub fn download_done(&mut self, outcome: Result<(), Error>, cancelled: bool) -> (ev: Option<
        InstallProgress,
    >)
        requires
            old(self).step == InstallStep::DownloadIso,
        ensures
            final(self).settings == old(self).settings,
            (final(self).step, ev) == next_after_download(*old(self), outcome, cancelled),
            (match ev {
                Some(e) => e.is_terminal(),
                None => false,
            }) <==> final(self).step == InstallStep::Finished,
    {
        if cancelled {
            self.step = InstallStep::Finished;
            return Some(InstallProgress::Failed(Error::Cancelled));
        }
        match outcome {
            Err(e) => {
                self.step = InstallStep::Finished;
                Some(InstallProgress::Failed(e))
            },
            Ok(_) => match &self.settings.destination {
                Destination::File(_) => {
                    self.step = InstallStep::Finished;
                    Some(InstallProgress::Finished)
                },
                Destination::Device(_) => {
                    self.step = InstallStep::FlashIso;
                    None
                },
            },
        }
    }

    /// Takes the outcome of the flash stage.
    pub fn flash_done(&mut self, outcome: Result<(), Error>, cancelled: bool) -> (ev: Option<
        InstallProgress,
    >)
        requires
            old(self).step == InstallStep::FlashIso,
        ensures
            final(self).settings == old(self).settings,
            (final(self).step, ev) == next_after_flash(*old(self), outcome, cancelled),
            (match ev {
                Some(e) => e.is_terminal(),
                None => false,
            }) <==> final(self).step == InstallStep::Finished,
    {
        if cancelled {
            self.step = InstallStep::Finished;
            return Some(InstallProgress::Failed(Error::Cancelled));
        }
        match outcome {
            Err(e) => {
                self.step = InstallStep::Finished;
                Some(InstallProgress::Failed(e))
            },
            Ok(_) => {
                self.step = InstallStep::ResizeMacos;
                None
            },
        }
    }

    /// What the resize stage is asked to do: the committed target size, or
    /// nothing — in which case the stage passes through immediately and
    /// the resize primitive is never consulted.
    pub fn resize_request(&self) -> (r: Option<u64>)
        requires
            self.step == InstallStep::ResizeMacos,
        ensures
            r == self.settings.macos_size,
    {
        self.settings.macos_size
    }

    /// Takes the outcome of the resize stage and ends the run.
    pub fn resize_done(&mut self, outcome: Result<(), Error>, cancelled: bool) -> (ev:
        InstallProgress)
        requires
            old(self).step == InstallStep::ResizeMacos,
        ensures
            final(self).settings == old(self).settings,
            (final(self).step, ev) == next_after_resize(*old(self), outcome, cancelled),
            ev.is_terminal(),
            final(self).step == InstallStep::Finished,
    {
        self.step = InstallStep::Finished;
        if cancelled {
            InstallProgress::Failed(Error::Cancelled)
        } else {
            match outcome {
                Err(e) => InstallProgress::Failed(e),
                Ok(_) => InstallProgress::Finished,
            }
        }
    }
}

/// Law: a token already cancelled before the run begins ends it at once in
/// cancellation; the download stage — and with it any network request — is
/// never entered.
pub proof fn lemma_pre_cancelled_run_never_downloads(s: Installer)
    ensures
        next_at_start(s, true) == (
            InstallStep::Finished,
            InstallProgress::Failed(Error::Cancelled),
        ),
{
}

/// Law: an observed cancellation takes classification precedence over a
/// concurrently reported stage failure — a run cancelled mid-download ends
/// cancelled, never as the transport failure the stage also reported.
pub proof fn lemma_cancellation_overrides_failure(s: Installer, e: Error)
    ensures
        next_after_download(s, Err(e), true) == (
            InstallStep::Finished,
            Some(InstallProgress::Failed(Error::Cancelled)),
        ),
        next_after_flash(s, Err(e), true) == (
            InstallStep::Finished,
            Some(InstallProgress::Failed(Error::Cancelled)),
        ),
        next_after_resize(s, Err(e), true) == (
            InstallStep::Finished,
            InstallProgress::Failed(Error::Cancelled),
        ),
{
}

/// Law: a declared hash that does not match the artifact's accumulated
/// digest ends the run as a checksum mismatch, and the machine never
/// reaches the flash stage (nor, therefore, the decompressor that success
/// would have driven first). The premises are the shape of
/// `DownloadEngine::finish`'s contract.
pub proof fn lemma_checksum_mismatch_short_circuits(
    s: Installer,
    expected: Option<Seq<char>>,
    data: Seq<u8>,
    verdict: Result<(), Error>,
)
    requires
        verdict is Ok <==> hash_ok(expected, data),
        verdict is Err ==> verdict == Err::<(), Error>(Error::ChecksumMismatch),
        !hash_ok(expected, data),
    ensures
        next_after_download(s, verdict, false) == (
            InstallStep::Finished,
            Some(InstallProgress::Failed(Error::ChecksumMismatch)),
        ),
{
}

} // verus!
