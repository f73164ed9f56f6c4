//! The page that walks the user through one run: it arms the run on
//! request and mirrors the run's progress stream as its own display state.

use vstd::prelude::*;

use crate::error::Error;
use crate::install::{InstallProgress, InstallSettings};
use crate::ui::app::{AppMessage, PageTransition};

verus! {

/// What the page shows at each moment of a run.
#[derive(Clone, Copy, Debug, PartialEq, Eq, Structural)]
pub enum InstallState {
    NotStarted,
    Starting,
    DownloadingIso,
    FlashingIso,
    ResizingMacos,
    Failed(Error),
    Finished,
}

/// The page's state: the committed settings and what it currently shows.
#[derive(Clone, Debug, PartialEq, Eq)]
pub struct InstallPage {
    pub install_settings: InstallSettings,
    pub state: InstallState,
}

/// What reaches this page: the user arming the run, or one step of the
/// run's own progress.
#[derive(Clone, Copy, Debug, PartialEq, Eq, Structural)]
pub enum InstallPageMessage {
    StartInstallation,
    StartedIsoDownload,
    StartedIsoFlash,
    StartedMacosResize,
    Finished,
    Failed(Error),
}

/// The display state after one message; each message names the state it
/// puts the page in.
pub open spec fn state_after(m: InstallPageMessage) -> InstallState {
    match m {
        InstallPageMessage::StartInstallation => InstallState::Starting,
        InstallPageMessage::StartedIsoDownload => InstallState::DownloadingIso,
        InstallPageMessage::StartedIsoFlash => InstallState::FlashingIso,
        InstallPageMessage::StartedMacosResize => InstallState::ResizingMacos,
        InstallPageMessage::Finished => InstallState::Finished,
        InstallPageMessage::Failed(e) => InstallState::Failed(e),
    }
}

impl InstallPage {
    /// A page armed with committed settings, before the run starts.
    pub fn new(install_settings: InstallSettings) -> (p: InstallPage)
        ensures
            p.install_settings == install_settings,
            p.state == InstallState::NotStarted,
    {
        InstallPage { install_settings, state: InstallState::NotStarted }
    }

    /// Applies one message: a message for this page moves the display to
    /// the state it names; any other changes nothing. This page never
    /// leaves by itself.
    pub fn update(&mut self, message: AppMessage) -> (t: Option<PageTransition>)
        ensures
            final(self).install_settings == old(self).install_settings,
            t == None::<PageTransition>,
            final(self).state == (match message {
                AppMessage::InstallPage(m) => state_after(m),
                _ => old(self).state,
            }),
    {
        match message {
            AppMessage::InstallPage(m) => {
                self.state = match m {
                    InstallPageMessage::StartInstallation => InstallState::Starting,
                    InstallPageMessage::StartedIsoDownload => InstallState::DownloadingIso,
                    InstallPageMessage::StartedIsoFlash => InstallState::FlashingIso,
                    InstallPageMessage::StartedMacosResize => InstallState::ResizingMacos,
                    InstallPageMessage::Finished => InstallState::Finished,
                    InstallPageMessage::Failed(e) => InstallState::Failed(e),
                };
            },
            _ => {},
        }
        None
    }
}

impl InstallPageMessage {
    /// How the run's progress stream folds into this page's messages: any
    /// progress while parts stream reads as "downloading".
    pub fn of_progress(ev: InstallProgress) -> (m: InstallPageMessage)
        ensures
            m == (match ev {
                InstallProgress::Started(_) => InstallPageMessage::StartedIsoDownload,
                InstallProgress::PartProgress(_, _) => InstallPageMessage::StartedIsoDownload,
                InstallProgress::Finished => InstallPageMessage::Finished,
                InstallProgress::Failed(e) => InstallPageMessage::Failed(e),
            }),
    {
        match ev {
            InstallProgress::Started(_) => InstallPageMessage::StartedIsoDownload,
            InstallProgress::PartProgress(_, _) => InstallPageMessage::StartedIsoDownload,
            InstallProgress::Finished => InstallPageMessage::Finished,
            InstallProgress::Failed(e) => InstallPageMessage::Failed(e),
        }
    }
}

} // verus!
