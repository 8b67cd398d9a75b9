use std::io::{Cursor, Write};

use spinexus::archive::{plan_extraction, FsOp};
use spinexus::download::{DownloadAction, DownloadEvent, DownloadFlow, DownloadPhase};
use spinexus::errors::Error;
use spinexus::install::{InstallAction, InstallEvent, InstallFlow, InstallPhase};
use spinexus::paths::cache_path;
use zip::write::SimpleFileOptions;
use zip::ZipWriter;

fn small_archive() -> Vec<u8> {
    let mut w = ZipWriter::new(Cursor::new(Vec::new()));
    let opts = SimpleFileOptions::default();
    w.start_file("a.txt", opts).unwrap();
    w.write_all(b"hello").unwrap();
    w.start_file("dir/b.txt", opts).unwrap();
    w.write_all(b"world").unwrap();
    w.add_directory("dir", opts).unwrap();
    w.finish().unwrap().into_inner()
}

#[test]
fn install_happy_path_cleans_the_cache() {
    let flow = InstallFlow::begin();
    assert!(matches!(flow.phase, InstallPhase::Downloading));
    let (flow, a) = flow.step(InstallEvent::DownloadFinished(Ok(())));
    assert_eq!(a, InstallAction::Extract);
    assert!(flow.cache_present);
    let (flow, a) = flow.step(InstallEvent::ExtractionFinished(Ok(())));
    assert_eq!(a, InstallAction::RemoveCache);
    let (flow, a) = flow.step(InstallEvent::CacheRemoveSucceeded);
    assert_eq!(a, InstallAction::Finish);
    assert_eq!(flow.phase, InstallPhase::Done { result: Ok(()) });
    assert!(flow.extracted);
    assert!(!flow.cache_present);
}

#[test]
fn extraction_failure_keeps_the_cached_archive() {
    let flow = InstallFlow::begin();
    let (flow, _) = flow.step(InstallEvent::DownloadFinished(Ok(())));
    let (flow, a) = flow.step(InstallEvent::ExtractionFinished(Err(Error::ArchiveOpen)));
    assert_eq!(a, InstallAction::Finish);
    assert_eq!(flow.phase, InstallPhase::Done { result: Err(Error::ArchiveOpen) });
    assert!(flow.cache_present);
    assert!(!flow.extracted);
}

#[test]
fn extraction_io_failure_keeps_the_cached_archive() {
    let flow = InstallFlow::begin();
    let (flow, _) = flow.step(InstallEvent::DownloadFinished(Ok(())));
    let (flow, _) = flow.step(InstallEvent::ExtractionFinished(Err(Error::ExtractionIo)));
    assert_eq!(flow.phase, InstallPhase::Done { result: Err(Error::ExtractionIo) });
    assert!(flow.cache_present);
}

#[test]
fn download_failure_propagates_with_no_cache_left() {
    let flow = InstallFlow::begin();
    let (flow, a) = flow.step(InstallEvent::DownloadFinished(Err(Error::Fetch)));
    assert_eq!(a, InstallAction::Finish);
    assert_eq!(flow.phase, InstallPhase::Done { result: Err(Error::Fetch) });
    assert!(!flow.cache_present);
}

#[test]
fn failed_download_rollback_leaves_the_partial_file() {
    let flow = InstallFlow::begin();
    let err = Error::Cleanup(Some(Box::new(Error::StreamRead)));
    let (flow, _) = flow.step(InstallEvent::DownloadFinished(Err(err)));
    assert!(flow.cache_present);
    assert!(matches!(
        flow.phase,
        InstallPhase::Done { result: Err(Error::Cleanup(Some(_))) }
    ));
}

#[test]
fn failed_cache_removal_after_success_is_reported() {
    let flow = InstallFlow::begin();
    let (flow, _) = flow.step(InstallEvent::DownloadFinished(Ok(())));
    let (flow, _) = flow.step(InstallEvent::ExtractionFinished(Ok(())));
    let (flow, a) = flow.step(InstallEvent::CacheRemoveFailed);
    assert_eq!(a, InstallAction::Finish);
    assert_eq!(flow.phase, InstallPhase::Done { result: Err(Error::Cleanup(None)) });
    assert!(flow.extracted);
    assert!(flow.cache_present);
}

#[test]
fn cache_path_of_an_install() {
    assert_eq!(cache_path("app-cache", "x.zip"), "app-cache/x.zip");
}

#[test]
fn full_pipeline_over_chunked_transport() {
    let archive = small_archive();

    // Download: the body arrives in ragged chunks; the driver appends each
    // Write action's bytes to its file, as the application does on disk.
    let mut cache_file: Vec<u8> = Vec::new();
    let flow = DownloadFlow::begin();
    let (flow, _) = flow.step(DownloadEvent::FetchSucceeded);
    let (mut flow, mut action) = flow.step(DownloadEvent::CreateSucceeded);
    for chunk in archive.chunks(7) {
        assert_eq!(action, DownloadAction::AwaitChunk);
        let (f, a) = flow.step(DownloadEvent::ChunkReceived(chunk.to_vec()));
        match a {
            DownloadAction::Write(bytes) => cache_file.extend_from_slice(&bytes),
            other => panic!("expected a write, got {other:?}"),
        }
        let (f2, a2) = f.step(DownloadEvent::WriteSucceeded);
        flow = f2;
        action = a2;
    }
    let (flow, _) = flow.step(DownloadEvent::StreamEnded);
    assert_eq!(flow.phase, DownloadPhase::Done { result: Ok(()) });
    // Chunk boundaries were irrelevant: the cache file is the archive.
    assert_eq!(cache_file, archive);

    // Extraction: the plan of the downloaded bytes names the expected tree.
    let ops = plan_extraction(&cache_file).unwrap();
    assert!(ops.iter().any(|op| matches!(
        op,
        FsOp::WriteFile { path, data, .. } if path == &["a.txt"] && data == &b"hello".to_vec()
    )));
    assert!(ops.iter().any(|op| matches!(
        op,
        FsOp::WriteFile { path, data, .. } if path == &["dir", "b.txt"] && data == &b"world".to_vec()
    )));

    // Installation: both stages succeeded, the cache entry is removed.
    let inst = InstallFlow::begin();
    let (inst, _) = inst.step(InstallEvent::DownloadFinished(Ok(())));
    let (inst, _) = inst.step(InstallEvent::ExtractionFinished(Ok(())));
    let (inst, _) = inst.step(InstallEvent::CacheRemoveSucceeded);
    assert_eq!(inst.phase, InstallPhase::Done { result: Ok(()) });
    assert!(!inst.cache_present);
}
