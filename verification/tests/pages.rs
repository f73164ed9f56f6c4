//! The page state machines: choices on the main page, the install page's
//! display states, the download page's progress and cancellation, and the
//! closing page's offers.

use t2linux_installer::distro::Distro;
use t2linux_installer::download::Fraction;
use t2linux_installer::error::Error;
use t2linux_installer::install::{Destination, InstallProgress, InstallSettings};
use t2linux_installer::ui::app::{AppMessage, PageTransition};
use t2linux_installer::ui::download_page::{
    app_message_of_progress, DownloadPage, DownloadPageMessage,
};
use t2linux_installer::ui::finish_page::{FinishPage, FinishPageMessage, FinishState};
use t2linux_installer::ui::install_page::{InstallPage, InstallPageMessage, InstallState};
use t2linux_installer::ui::main_page::{MainPage, MainPageMessage};

fn sample_distros() -> Vec<Distro> {
    vec![
        Distro::from_record(
            "alpha".to_string(),
            vec!["http://example.test/a".to_string()],
            None,
            None,
        )
        .unwrap(),
        Distro::from_record(
            "beta".to_string(),
            vec!["http://example.test/b".to_string()],
            None,
            None,
        )
        .unwrap(),
    ]
}

fn sample_settings() -> InstallSettings {
    InstallSettings::new(
        sample_distros().remove(0),
        Destination::Device("disk2".to_string()),
        None,
    )
}

#[test]
fn main_page_starts_with_defaults() {
    let p = MainPage::new();
    assert_eq!(p.distro_index, None);
    assert!(p.shrink_macos);
    assert_eq!(p.macos_size, 0);
    assert_eq!(p.target_disk, None);
}

#[test]
fn main_page_records_choices() {
    let mut p = MainPage::new();
    assert_eq!(
        p.update(
            AppMessage::MainPage(MainPageMessage::PickDistro(1)),
            sample_distros(),
        ),
        None
    );
    assert_eq!(p.distro_index, Some(1));
    assert_eq!(
        p.update(
            AppMessage::MainPage(MainPageMessage::PickDisk("disk2".to_string())),
            sample_distros(),
        ),
        None
    );
    assert_eq!(p.target_disk, Some("disk2".to_string()));
    assert_eq!(
        p.update(
            AppMessage::MainPage(MainPageMessage::ChangeMacosSize(123)),
            sample_distros(),
        ),
        None
    );
    assert_eq!(p.macos_size, 123);
    assert_eq!(
        p.update(
            AppMessage::MainPage(MainPageMessage::ToggleAutoPartitioning(false)),
            sample_distros(),
        ),
        None
    );
    assert!(!p.shrink_macos);
}

#[test]
fn main_page_commits_settings_on_start() {
    let mut p = MainPage::new();
    p.update(
        AppMessage::MainPage(MainPageMessage::PickDistro(1)),
        sample_distros(),
    );
    p.update(
        AppMessage::MainPage(MainPageMessage::PickDisk("disk2".to_string())),
        sample_distros(),
    );
    p.update(
        AppMessage::MainPage(MainPageMessage::ChangeMacosSize(30_000_000_000)),
        sample_distros(),
    );
    let t = p.update(
        AppMessage::MainPage(MainPageMessage::StartInstall),
        sample_distros(),
    );
    match t {
        Some(PageTransition::ToInstall(settings)) => {
            assert_eq!(settings.distro.name, "beta");
            assert_eq!(settings.destination, Destination::Device("disk2".to_string()));
            assert_eq!(settings.macos_size, Some(30_000_000_000));
        }
        other => panic!("expected an install transition, got {:?}", other),
    }
}

#[test]
fn main_page_start_without_choices_does_nothing() {
    let mut p = MainPage::new();
    assert_eq!(
        p.update(
            AppMessage::MainPage(MainPageMessage::StartInstall),
            sample_distros(),
        ),
        None
    );
    // A disk alone is not enough either.
    p.update(
        AppMessage::MainPage(MainPageMessage::PickDisk("disk2".to_string())),
        sample_distros(),
    );
    assert_eq!(
        p.update(
            AppMessage::MainPage(MainPageMessage::StartInstall),
            sample_distros(),
        ),
        None
    );
    // An index beyond the catalog is refused.
    p.update(
        AppMessage::MainPage(MainPageMessage::PickDistro(7)),
        sample_distros(),
    );
    assert_eq!(
        p.update(
            AppMessage::MainPage(MainPageMessage::StartInstall),
            sample_distros(),
        ),
        None
    );
}

#[test]
fn main_page_shrink_toggled_off_commits_no_size() {
    let mut p = MainPage::new();
    p.update(
        AppMessage::MainPage(MainPageMessage::PickDistro(0)),
        sample_distros(),
    );
    p.update(
        AppMessage::MainPage(MainPageMessage::PickDisk("disk3".to_string())),
        sample_distros(),
    );
    p.update(
        AppMessage::MainPage(MainPageMessage::ToggleAutoPartitioning(false)),
        sample_distros(),
    );
    match p.update(
        AppMessage::MainPage(MainPageMessage::StartInstall),
        sample_distros(),
    ) {
        Some(PageTransition::ToInstall(settings)) => {
            assert_eq!(settings.macos_size, None);
            assert_eq!(settings.distro.name, "alpha");
        }
        other => panic!("expected an install transition, got {:?}", other),
    }
}

#[test]
fn install_page_tracks_the_run() {
    let mut p = InstallPage::new(sample_settings());
    assert_eq!(p.state, InstallState::NotStarted);
    let steps = [
        (InstallPageMessage::StartInstallation, InstallState::Starting),
        (InstallPageMessage::StartedIsoDownload, InstallState::DownloadingIso),
        (InstallPageMessage::StartedIsoFlash, InstallState::FlashingIso),
        (InstallPageMessage::StartedMacosResize, InstallState::ResizingMacos),
        (InstallPageMessage::Finished, InstallState::Finished),
        (
            InstallPageMessage::Failed(Error::FlashFailed),
            InstallState::Failed(Error::FlashFailed),
        ),
    ];
    for (msg, state) in steps {
        assert_eq!(p.update(AppMessage::InstallPage(msg)), None);
        assert_eq!(p.state, state);
    }
    // A message for another page changes nothing.
    p.update(AppMessage::Finish(FinishPageMessage::Exit));
    assert_eq!(p.state, InstallState::Failed(Error::FlashFailed));
}

#[test]
fn install_page_folds_progress_into_messages() {
    assert_eq!(
        InstallPageMessage::of_progress(InstallProgress::Started(2)),
        InstallPageMessage::StartedIsoDownload
    );
    assert_eq!(
        InstallPageMessage::of_progress(InstallProgress::PartProgress(
            0,
            Fraction { num: 1, den: 2 },
        )),
        InstallPageMessage::StartedIsoDownload
    );
    assert_eq!(
        InstallPageMessage::of_progress(InstallProgress::Finished),
        InstallPageMessage::Finished
    );
    assert_eq!(
        InstallPageMessage::of_progress(InstallProgress::Failed(Error::NetworkError)),
        InstallPageMessage::Failed(Error::NetworkError)
    );
}

#[test]
fn finish_page_offers_retry_and_exit() {
    let mut p = FinishPage::new(FinishState::Cancelled);
    assert_eq!(p.state, FinishState::Cancelled);
    assert_eq!(
        p.update(AppMessage::Finish(FinishPageMessage::Retry)),
        Some(PageTransition::ToMain)
    );
    assert_eq!(
        p.update(AppMessage::Finish(FinishPageMessage::Exit)),
        Some(PageTransition::Exit)
    );
    assert_eq!(
        p.update(AppMessage::InstallPage(InstallPageMessage::Finished)),
        None
    );
}

#[test]
fn download_page_tracks_progress() {
    let mut p = DownloadPage::new(sample_settings());
    assert_eq!(p.progress, Fraction { num: 0, den: 1 });
    assert_eq!(p.total_parts, None);
    assert_eq!(p.current_parts, None);
    assert_eq!(
        p.update(AppMessage::Download(DownloadPageMessage::StartedIsoDownload(2))),
        None
    );
    assert_eq!(p.total_parts, Some(2));
    assert_eq!(
        p.update(AppMessage::Download(DownloadPageMessage::DownloadProgress(
            1,
            Fraction { num: 3, den: 4 },
        ))),
        None
    );
    assert_eq!(p.current_parts, Some(1));
    assert_eq!(p.progress, Fraction { num: 3, den: 4 });
    assert_eq!(
        p.update(AppMessage::Download(DownloadPageMessage::Finished)),
        Some(PageTransition::ToFinish(FinishState::Clean))
    );
}

#[test]
fn download_page_failure_without_cancel_is_an_error() {
    let mut p = DownloadPage::new(sample_settings());
    assert_eq!(
        p.update(AppMessage::Download(DownloadPageMessage::Failed(Error::NetworkError))),
        Some(PageTransition::ToFinish(FinishState::Error(Error::NetworkError)))
    );
}

#[test]
fn download_page_cancel_sets_the_token_and_outranks_failure() {
    let mut p = DownloadPage::new(sample_settings());
    assert!(!p.ct.is_cancelled());
    assert_eq!(
        p.update(AppMessage::Download(DownloadPageMessage::Cancel)),
        None
    );
    // The shared token is set: a run holding a clone observes it.
    assert!(p.ct.is_cancelled());
    // A failure reported after cancellation closes as cancelled, not as
    // an error.
    assert_eq!(
        p.update(AppMessage::Download(DownloadPageMessage::Failed(Error::NetworkError))),
        Some(PageTransition::ToFinish(FinishState::Cancelled))
    );
}

#[test]
fn progress_stream_surfaces_as_download_messages() {
    assert_eq!(
        app_message_of_progress(InstallProgress::Started(3)),
        AppMessage::Download(DownloadPageMessage::StartedIsoDownload(3))
    );
    assert_eq!(
        app_message_of_progress(InstallProgress::PartProgress(2, Fraction { num: 1, den: 8 })),
        AppMessage::Download(DownloadPageMessage::DownloadProgress(
            2,
            Fraction { num: 1, den: 8 },
        ))
    );
    assert_eq!(
        app_message_of_progress(InstallProgress::Finished),
        AppMessage::Download(DownloadPageMessage::Finished)
    );
    assert_eq!(
        app_message_of_progress(InstallProgress::Failed(Error::IoError)),
        AppMessage::Download(DownloadPageMessage::Failed(Error::IoError))
    );
}
