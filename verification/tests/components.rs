//! Component-level checks: hashing and hex, descriptor parsing, the
//! decompressor plan, device records, and the privileged-open options.

use t2linux_installer::authopen::{octal_string, OpenOption};
use t2linux_installer::decompress::{decompress_action, temp_path, DecompressAction};
use t2linux_installer::disk::BlockDevice;
use t2linux_installer::diskutil::{can_shrink, ResizeLimits, GIGABYTE};
use t2linux_installer::distro::{str_eq, CompressionAlgorithim, Distro};
use t2linux_installer::download::DownloadEngine;
use t2linux_installer::error::Error;
use t2linux_installer::hashing::hex_encode;

#[test]
fn hex_encode_renders_lower_case_pairs() {
    assert_eq!(hex_encode(&vec![]), "");
    assert_eq!(hex_encode(&vec![0x00]), "00");
    assert_eq!(hex_encode(&vec![0xab, 0x00, 0xff, 0x7c]), "ab00ff7c");
}

#[test]
fn engine_digest_matches_known_sha256_of_empty() {
    // SHA-256 of no bytes at all; a hasher that ignored its input or
    // handed it back unchanged could not produce it for "abc" below.
    let empty_digest = "e3b0c44298fc1c149afbf4c8996fb92427ae41e4649b934ca495991b7852b855";
    let mut engine = DownloadEngine::new(0, Some(empty_digest.to_string()));
    assert_eq!(engine.bytes_total(), 0);
    assert!(engine.finish().is_ok());
}

#[test]
fn engine_digest_depends_on_fed_bytes() {
    // SHA-256 of "abc"; fed byte by byte across the accumulator.
    let abc_digest = "ba7816bf8f01cfea414140de5dae2223b00361a396177a9cb410ff61f20015ad";
    let mut engine = DownloadEngine::new(1, Some(abc_digest.to_string()));
    engine.begin_part(Some(3));
    for b in [b'a', b'b', b'c'] {
        engine.on_chunk(&vec![b], false).unwrap();
    }
    engine.end_part();
    assert!(engine.finish().is_ok());

    // The digest of the empty input must no longer match once bytes came.
    let empty_digest = "e3b0c44298fc1c149afbf4c8996fb92427ae41e4649b934ca495991b7852b855";
    let mut engine = DownloadEngine::new(1, Some(empty_digest.to_string()));
    engine.begin_part(Some(3));
    engine.on_chunk(&vec![b'a', b'b', b'c'], false).unwrap();
    engine.end_part();
    assert_eq!(engine.finish(), Err(Error::ChecksumMismatch));
}

#[test]
fn distro_record_accepts_zip_tag() {
    let d = Distro::from_record(
        "alpha".to_string(),
        vec!["http://example.test/a".to_string()],
        Some("zip".to_string()),
        None,
    )
    .unwrap();
    assert_eq!(d.name, "alpha");
    assert_eq!(d.iso_compression, Some(CompressionAlgorithim::Zip));
    assert_eq!(d.part_count(), 1);
}

#[test]
fn distro_record_rejects_unknown_tag() {
    let r = Distro::from_record(
        "alpha".to_string(),
        vec!["http://example.test/a".to_string()],
        Some("xz".to_string()),
        None,
    );
    assert_eq!(r.unwrap_err(), Error::UnsupportedCompression);
}

#[test]
fn distro_record_without_tag_is_uncompressed() {
    let d = Distro::from_record("alpha".to_string(), vec![], None, None).unwrap();
    assert_eq!(d.iso_compression, None);
    assert_eq!(d.part_count(), 0);
}

#[test]
fn str_eq_compares_contents() {
    assert!(str_eq("zip", "zip"));
    assert!(!str_eq("zip", "zi"));
    assert!(!str_eq("zip", "zap"));
    assert!(str_eq("", ""));
}

#[test]
fn decompress_plan_follows_the_scheme() {
    assert_eq!(decompress_action(&None), DecompressAction::PassThrough);
    assert_eq!(
        decompress_action(&Some(CompressionAlgorithim::Zip)),
        DecompressAction::ExtractZip
    );
}

#[test]
fn temp_path_appends_the_fixed_suffix() {
    assert_eq!(temp_path("download.iso"), "download.iso.extract");
    assert_eq!(temp_path(""), ".extract");
}

#[test]
fn block_device_record_renders_size_and_path() {
    let d = BlockDevice::from_raw("sda".to_string(), 1_000_000);
    assert_eq!(d.name, "sda");
    assert_eq!(d.path, "/dev/sda");
    // humansize's decimal rendering; a wrapper handing its argument back
    // unchanged could not produce this.
    assert_eq!(d.size, "1 MB");
    let small = BlockDevice::from_raw("sdb1".to_string(), 999);
    assert_eq!(small.size, "999 B");
}

#[test]
fn can_shrink_needs_more_than_a_gigabyte_of_room() {
    assert!(can_shrink(ResizeLimits {
        min_size_no_guard: 0,
        max_size: GIGABYTE + 1,
    }));
    assert!(!can_shrink(ResizeLimits { min_size_no_guard: 0, max_size: GIGABYTE }));
    assert!(!can_shrink(ResizeLimits { min_size_no_guard: 5, max_size: 5 }));
    assert!(!can_shrink(ResizeLimits { min_size_no_guard: 9, max_size: 5 }));
}

#[test]
fn octal_rendering_matches_the_mode_flag() {
    assert_eq!(octal_string(0), "0");
    assert_eq!(octal_string(7), "7");
    assert_eq!(octal_string(8), "10");
    assert_eq!(octal_string(0o644), "644");
    assert_eq!(octal_string(0o755), "755");
}

#[test]
fn open_option_flags_match_each_mode() {
    assert_eq!(OpenOption::Read.flags(), Vec::<String>::new());
    assert_eq!(OpenOption::ReadWrite.flags(), vec!["-w".to_string()]);
    assert_eq!(
        OpenOption::ReadWriteAppend.flags(),
        vec!["-w".to_string(), "-a".to_string()]
    );
    assert_eq!(
        OpenOption::ReadWriteCreate(0o644).flags(),
        vec![
            "-w".to_string(),
            "-c".to_string(),
            "-m".to_string(),
            "644".to_string()
        ]
    );
}

#[test]
fn authopen_right_names_mode_and_path() {
    assert_eq!(OpenOption::Read.mode_name(), "readonly");
    assert_eq!(OpenOption::ReadWrite.mode_name(), "readwrite");
    assert_eq!(OpenOption::ReadWriteAppend.mode_name(), "readwrite");
    assert_eq!(OpenOption::ReadWriteCreate(0o600).mode_name(), "readwritecreate");
    assert_eq!(
        OpenOption::ReadWrite.authopen_right("/dev/disk2"),
        "sys.openfile.readwrite./dev/disk2"
    );
}

#[test]
fn every_error_kind_describes_itself() {
    let kinds = [
        Error::IoError,
        Error::NetworkError,
        Error::ChecksumMismatch,
        Error::UnsupportedCompression,
        Error::ResizeOutOfRange,
        Error::ResizeFailed,
        Error::FlashFailed,
        Error::Cancelled,
    ];
    for k in kinds {
        assert!(!k.describe().is_empty());
    }
    assert_eq!(
        Error::ResizeOutOfRange.describe(),
        "new volume size outside of acceptable range"
    );
}
