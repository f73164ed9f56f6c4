//! The page that watches one run: it tracks per-part progress, owns the
//! run's cancellation token, and decides which closing state the user
//! sees — with an observed cancellation always preferred over a failure.

use vstd::prelude::*;

use crate::download::Fraction;
use crate::error::Error;
use crate::install::{InstallProgress, InstallSettings};
use crate::ui::app::{AppMessage, PageTransition};
use crate::ui::finish_page::FinishState;

verus! {

/// What reaches this page: steps of the run's progress, or the user's
/// cancel request.
#[derive(Clone, Copy, Debug, PartialEq, Eq, Structural)]
pub enum DownloadPageMessage {
    /// The run began with this many parts.
    StartedIsoDownload(usize),
    /// The given part advanced to the given fraction.
    DownloadProgress(usize, Fraction),
    Finished,
    Failed(Error),
    Cancel,
}

/// The page's state: the committed settings, the progress shown, and the
/// run's cancellation token, shared with whoever drives the run.
#[derive(Debug)]
pub struct DownloadPage {
    pub settings: InstallSettings,
    pub progress: Fraction,
    pub total_parts: Option<usize>,
    pub current_parts: Option<usize>,
    pub ct: tokio_util::sync::CancellationToken,
}

impl DownloadPage {
    /// A page armed with committed settings and a fresh token, before any
    /// progress arrived.
    pub fn new(settings: InstallSettings) -> (p: DownloadPage)
        ensures
            p.settings == settings,
            p.progress == (Fraction { num: 0, den: 1 }),
            p.total_parts is None,
            p.current_parts is None,
    {
        DownloadPage {
            settings,
            progress: Fraction { num: 0, den: 1 },
            total_parts: None,
            current_parts: None,
            ct: tokio_util::sync::CancellationToken::new(),
        }
    }

    /// Applies one message. Progress updates the display; a cancel request
    /// sets the shared token for the run to observe; a terminal event
    /// moves to the closing page, where a failure reported after the token
    /// was observed set closes as cancelled, not as an error.
    pub fn update(&mut self, message: AppMessage) -> (t: Option<PageTransition>)
        ensures
            final(self).settings == old(self).settings,
            final(self).ct == old(self).ct,
            match message {
                AppMessage::Download(DownloadPageMessage::StartedIsoDownload(parts)) => final(self)
                    .total_parts == Some(parts) && final(self).progress == old(self).progress
                    && final(self).current_parts == old(self).current_parts && t
                    == None::<PageTransition>,
                AppMessage::Download(DownloadPageMessage::DownloadProgress(part, frac)) => {
                    &&& final(self).current_parts == Some(part)
                    &&& final(self).progress == frac
                    &&& final(self).total_parts == old(self).total_parts
                    &&& t == None::<PageTransition>
                },
                AppMessage::Download(DownloadPageMessage::Finished) => *final(self) == *old(self)
                    && t == Some(PageTransition::ToFinish(FinishState::Clean)),
                AppMessage::Download(DownloadPageMessage::Failed(e)) => *final(self) == *old(self)
                    && (t == Some(PageTransition::ToFinish(FinishState::Cancelled)) || t == Some(
                    PageTransition::ToFinish(FinishState::Error(e)),
                )),
                AppMessage::Download(DownloadPageMessage::Cancel) => *final(self) == *old(self) && t
                    == None::<PageTransition>,
                _ => *final(self) == *old(self) && t == None::<PageTransition>,
            },
    {
        match message {
            AppMessage::Download(msg) => match msg {
                DownloadPageMessage::StartedIsoDownload(parts) => {
                    self.total_parts = Some(parts);
                    None
                },
                DownloadPageMessage::DownloadProgress(part, frac) => {
                    self.current_parts = Some(part);
                    self.progress = frac;
                    None
                },
                DownloadPageMessage::Finished => Some(
                    PageTransition::ToFinish(FinishState::Clean),
                ),
                DownloadPageMessage::Failed(e) => {
                    let state = if self.ct.is_cancelled() {
                        FinishState::Cancelled
                    } else {
                        FinishState::Error(e)
                    };
                    Some(PageTransition::ToFinish(state))
                },
                DownloadPageMessage::Cancel => {
                    self.ct.cancel();
                    None
                },
            },
            _ => None,
        }
    }
}

/// How the run's progress stream surfaces as app messages for the
/// download page, one message per event.
pub fn app_message_of_progress(ev: InstallProgress) -> (m: AppMessage)
    ensures
        m == (match ev {
            InstallProgress::Started(parts) => AppMessage::Download(
                DownloadPageMessage::StartedIsoDownload(parts),
            ),
            InstallProgress::PartProgress(part, frac) => AppMessage::Download(
                DownloadPageMessage::DownloadProgress(part, frac),
            ),
            InstallProgress::Finished => AppMessage::Download(DownloadPageMessage::Finished),
            InstallProgress::Failed(e) => AppMessage::Download(DownloadPageMessage::Failed(e)),
        }),
{
    match ev {
        InstallProgress::Started(parts) => AppMessage::Download(
            DownloadPageMessage::StartedIsoDownload(parts),
        ),
        InstallProgress::PartProgress(part, frac) => AppMessage::Download(
            DownloadPageMessage::DownloadProgress(part, frac),
        ),
        InstallProgress::Finished => AppMessage::Download(DownloadPageMessage::Finished),
        InstallProgress::Failed(e) => AppMessage::Download(DownloadPageMessage::Failed(e)),
    }
}

} // verus!
