//! The messages the pages exchange and the transitions they request. The
//! embedding program owns the current page and performs each requested
//! transition; the pages only decide them.

use vstd::prelude::*;

use crate::ui::download_page::DownloadPageMessage;
use crate::ui::finish_page::{FinishPageMessage, FinishState};
use crate::ui::install_page::InstallPageMessage;
use crate::ui::main_page::MainPageMessage;
use crate::install::InstallSettings;

verus! {

/// One message delivered to the current page.
#[derive(Clone, Debug, PartialEq, Eq)]
pub enum AppMessage {
    MainPage(MainPageMessage),
    InstallPage(InstallPageMessage),
    Download(DownloadPageMessage),
    Finish(FinishPageMessage),
}

/// What a page asks of its host after a message: move to another page, or
/// close the program.
#[derive(Clone, Debug, PartialEq, Eq)]
pub enum PageTransition {
    ToMain,
    ToInstall(InstallSettings),
    ToFinish(FinishState),
    Exit,
}

} // verus!
