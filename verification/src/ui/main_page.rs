//! The opening page: the user picks a distro and a target disk, chooses
//! whether and how far to shrink the host partition, and commits the run.

use vstd::prelude::*;

use crate::distro::Distro;
use crate::install::{Destination, InstallSettings};
use crate::ui::app::{AppMessage, PageTransition};

verus! {

/// What the user can do on the opening page.
#[derive(Clone, Debug, PartialEq, Eq)]
pub enum MainPageMessage {
    PickDistro(usize),
    ToggleAutoPartitioning(bool),
    PickDisk(String),
    StartInstall,
    ChangeMacosSize(u64),
}

/// The page's state: the choices made so far.
#[derive(Clone, Debug, PartialEq, Eq)]
pub struct MainPage {
    pub distro_index: Option<usize>,
    pub shrink_macos: bool,
    pub macos_size: u64,
    pub target_disk: Option<String>,
}

impl MainPage {
    /// A fresh page: nothing picked yet, shrinking on by default.
    pub fn new() -> (p: MainPage)
        ensures
            p.distro_index is None,
            p.shrink_macos,
            p.macos_size == 0,
            p.target_disk is None,
    {
        MainPage { distro_index: None, shrink_macos: true, macos_size: 0, target_disk: None }
    }

    /// The settings a start request commits, given the catalog's distro
    /// list: defined once a distro and a target disk are both chosen and
    /// the chosen index is in range, and absent otherwise.
    pub open spec fn committed_settings(&self, distros: Seq<Distro>) -> Option<InstallSettings> {
        match self.distro_index {
            Some(i) => match self.target_disk {
                Some(ref d) => if i < distros.len() {
                    Some(
                        InstallSettings {
                            distro: distros[i as int],
                            destination: Destination::Device(*d),
                            macos_size: if self.shrink_macos {
                                Some(self.macos_size)
                            } else {
                                None
                            },
                        },
                    )
                } else {
                    None
                },
                None => None,
            },
            None => None,
        }
    }

    /// Applies one message. Choice messages record the choice; a start
    /// request with a distro and a disk both chosen commits them and moves
    /// to the install page, and without them changes nothing. The distro
    /// list is consumed so the chosen descriptor can be moved into the
    /// settings.
    pub fn update(&mut self, message: AppMessage, distros: Vec<Distro>) -> (t: Option<
        PageTransition,
    >)
        ensures
            match message {
                AppMessage::MainPage(MainPageMessage::PickDistro(i)) => *final(self) == (MainPage {
                    distro_index: Some(i),
                    ..*old(self)
                }) && t == None::<PageTransition>,
                AppMessage::MainPage(MainPageMessage::ToggleAutoPartitioning(b)) => *final(self)
                    == (MainPage { shrink_macos: b, ..*old(self) }) && t
                    == None::<PageTransition>,
                AppMessage::MainPage(MainPageMessage::PickDisk(ref s)) => *final(self) == (MainPage {
                    target_disk: Some(*s),
                    ..*old(self)
                }) && t == None::<PageTransition>,
                AppMessage::MainPage(MainPageMessage::ChangeMacosSize(n)) => *final(self)
                    == (MainPage { macos_size: n, ..*old(self) }) && t
                    == None::<PageTransition>,
                AppMessage::MainPage(MainPageMessage::StartInstall) => *final(self) == *old(self)
                    && t == (match old(self).committed_settings(distros@) {
                    Some(s) => Some(PageTransition::ToInstall(s)),
                    None => None,
                }),
                _ => *final(self) == *old(self) && t == None::<PageTransition>,
            },
    {
        let mut distros = distros;
        match message {
            AppMessage::MainPage(msg) => match msg {
                MainPageMessage::PickDistro(i) => {
                    self.distro_index = Some(i);
                    None
                },
                MainPageMessage::ToggleAutoPartitioning(b) => {
                    self.shrink_macos = b;
                    None
                },
                MainPageMessage::PickDisk(s) => {
                    self.target_disk = Some(s);
                    None
                },
                MainPageMessage::ChangeMacosSize(n) => {
                    self.macos_size = n;
                    None
                },
                MainPageMessage::StartInstall => {
                    let i = match &self.distro_index {
                        Some(i) => *i,
                        None => {
                            return None;
                        },
                    };
                    if i >= distros.len() {
                        return None;
                    }
                    let disk = match &self.target_disk {
                        Some(d) => d.clone(),
                        None => {
                            return None;
                        },
                    };
                    let distro = distros.remove(i);
                    let settings = InstallSettings::new(
                        distro,
                        Destination::Device(disk),
                        if self.shrink_macos {
                            Some(self.macos_size)
                        } else {
                            None
                        },
                    );
                    Some(PageTransition::ToInstall(settings))
                },
            },
            _ => None,
        }
    }
}

} // verus!
