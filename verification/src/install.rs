use vstd::prelude::*;

use crate::download::{DownloadFlow, DownloadPhase};
use crate::errors::{is_download_error, is_extraction_error, Error};

verus! {

/// Where an installation stands.
#[derive(Debug, PartialEq)]
pub enum InstallPhase {
    /// The archive is being downloaded to the cache path.
    Downloading,
    /// The cached archive is being extracted into the destination.
    Extracting,
    /// Extraction succeeded; the cached archive is being deleted.
    RemovingCache,
    /// The installation is over; nothing more will be asked of the driver.
    Done { result: Result<(), Error> },
}

/// What the driver observed while performing the last requested stage.
#[derive(Debug, PartialEq)]
pub enum InstallEvent {
    /// The download stage ended with this result.
    DownloadFinished(Result<(), Error>),
    /// The extraction stage ended with this result.
    ExtractionFinished(Result<(), Error>),
    /// The cached archive was deleted.
    CacheRemoveSucceeded,
    /// The cached archive could not be deleted.
    CacheRemoveFailed,
}

/// What the driver must do next.
#[derive(Debug, PartialEq)]
pub enum InstallAction {
    /// Extract the cached archive into the destination directory.
    Extract,
    /// Delete the cached archive.
    RemoveCache,
    /// Nothing is left to do; the result is in the `Done` phase.
    Finish,
}

/// The installation protocol: download, then extract, then delete the cached
/// archive, with the deliberate asymmetry that a download failure leaves no
/// cache file (the downloader rolled it back) while an extraction failure
/// leaves the cached archive in place for inspection or retry.
pub struct InstallFlow {
    pub phase: InstallPhase,
    /// Model of the cached archive: whether a file is at the cache path.
    pub cache_present: bool,
    /// Whether the destination was populated by a successful extraction.
    pub extracted: bool,
}

impl InstallFlow {
    /// The protocol invariant, tying the cache-file model to the phase and
    /// to the kind of the reported error.
    pub open spec fn inv(self) -> bool {
        match self.phase {
            InstallPhase::Downloading => !self.cache_present && !self.extracted,
            InstallPhase::Extracting => self.cache_present && !self.extracted,
            InstallPhase::RemovingCache => self.cache_present && self.extracted,
            InstallPhase::Done { result } => match result {
                Ok(_) => self.extracted && !self.cache_present,
                Err(e) => self.cache_present <==> (is_extraction_error(e) || e is Cleanup),
            },
        }
    }

    /// The events the protocol can take in its current phase: the outcome of
    /// the stage it asked for, carrying only errors that stage can report.
    pub open spec fn accepts(self, event: InstallEvent) -> bool {
        match self.phase {
            InstallPhase::Downloading => event matches InstallEvent::DownloadFinished(r) && (
            r matches Err(e) ==> is_download_error(e)),
            InstallPhase::Extracting => event matches InstallEvent::ExtractionFinished(r) && (
            r matches Err(e) ==> is_extraction_error(e)),
            InstallPhase::RemovingCache => event is CacheRemoveSucceeded
                || event is CacheRemoveFailed,
            InstallPhase::Done { .. } => false,
        }
    }
}

/// The transition relation of the installation protocol: each stage's
/// outcome moves the phase, the cache-file model, and asks for the next
/// stage; every error propagates unchanged.
pub open spec fn install_step_spec(
    pre: InstallFlow,
    event: InstallEvent,
    post: InstallFlow,
    action: InstallAction,
) -> bool {
    match event {
        InstallEvent::DownloadFinished(r) => match r {
            Ok(_) => post == (InstallFlow {
                phase: InstallPhase::Extracting,
                cache_present: true,
                extracted: false,
            }) && action is Extract,
            Err(e) => post == (InstallFlow {
                phase: InstallPhase::Done { result: Err(e) },
                cache_present: e is Cleanup,
                extracted: false,
            }) && action is Finish,
        },
        InstallEvent::ExtractionFinished(r) => match r {
            Ok(_) => post == (InstallFlow {
                phase: InstallPhase::RemovingCache,
                cache_present: true,
                extracted: true,
            }) && action is RemoveCache,
            Err(e) => post == (InstallFlow {
                phase: InstallPhase::Done { result: Err(e) },
                cache_present: true,
                extracted: false,
            }) && action is Finish,
        },
        InstallEvent::CacheRemoveSucceeded => post == (InstallFlow {
            phase: InstallPhase::Done { result: Ok(()) },
            cache_present: false,
            extracted: true,
        }) && action is Finish,
        InstallEvent::CacheRemoveFailed => post == (InstallFlow {
            phase: InstallPhase::Done { result: Err(Error::Cleanup(None)) },
            cache_present: true,
            extracted: true,
        }) && action is Finish,
    }
}

impl InstallFlow {
    /// Starts an installation: the driver's first duty is to download the
    /// archive to the cache path.
    pub fn begin() -> (flow: InstallFlow)
        ensures
            flow.inv(),
            flow.phase is Downloading,
            !flow.cache_present,
            !flow.extracted,
    {
        InstallFlow { phase: InstallPhase::Downloading, cache_present: false, extracted: false }
    }

    /// Takes one stage outcome and answers with the next stage. Every error
    /// propagates unchanged and ends the installation; after a successful
    /// extraction the cached archive is deleted, and only that deletion
    /// failing is reported as a bare `Cleanup` error.
    pub fn step(self, event: InstallEvent) -> (r: (InstallFlow, InstallAction))
        requires
            self.inv(),
            self.accepts(event),
        ensures
            r.0.inv(),
            install_step_spec(self, event, r.0, r.1),
    {
        match (self.phase, event) {
            (InstallPhase::Downloading, InstallEvent::DownloadFinished(Ok(_))) => (
                InstallFlow {
                    phase: InstallPhase::Extracting,
                    cache_present: true,
                    extracted: false,
                },
                InstallAction::Extract,
            ),
            (InstallPhase::Downloading, InstallEvent::DownloadFinished(Err(e))) => {
                let still_there = matches!(e, Error::Cleanup(_));
                (
                    InstallFlow {
                        phase: InstallPhase::Done { result: Err(e) },
                        cache_present: still_there,
                        extracted: false,
                    },
                    InstallAction::Finish,
                )
            },
            (InstallPhase::Extracting, InstallEvent::ExtractionFinished(Ok(_))) => (
                InstallFlow {
                    phase: InstallPhase::RemovingCache,
                    cache_present: true,
                    extracted: true,
                },
                InstallAction::RemoveCache,
            ),
            (InstallPhase::Extracting, InstallEvent::ExtractionFinished(Err(e))) => (
                InstallFlow {
                    phase: InstallPhase::Done { result: Err(e) },
                    cache_present: true,
                    extracted: false,
                },
                InstallAction::Finish,
            ),
            (InstallPhase::RemovingCache, InstallEvent::CacheRemoveSucceeded) => (
                InstallFlow {
                    phase: InstallPhase::Done { result: Ok(()) },
                    cache_present: false,
                    extracted: true,
                },
                InstallAction::Finish,
            ),
            (InstallPhase::RemovingCache, InstallEvent::CacheRemoveFailed) => (
                InstallFlow {
                    phase: InstallPhase::Done { result: Err(Error::Cleanup(None)) },
                    cache_present: true,
                    extracted: true,
                },
                InstallAction::Finish,
            ),
            // No other pairing satisfies `accepts`; this arm is never reached.
            (phase, _) => (
                InstallFlow { phase, cache_present: self.cache_present, extracted: self.extracted },
                InstallAction::Finish,
            ),
        }
    }
}

/// Install happy path: a successful installation populated the destination
/// and left no file at the cache path.
pub proof fn lemma_install_success(flow: InstallFlow)
    requires
        flow.inv(),
        flow.phase matches InstallPhase::Done { result: Ok(_) },
    ensures
        flow.extracted,
        !flow.cache_present,
{
}

/// Asymmetric cleanup, by design: an installation that failed during
/// extraction leaves the cached archive on disk.
pub proof fn lemma_install_extraction_failure_keeps_cache(flow: InstallFlow)
    requires
        flow.inv(),
        flow.phase matches InstallPhase::Done { result: Err(e) } && is_extraction_error(e),
    ensures
        flow.cache_present,
{
}

/// An installation that failed during download leaves no cache file (the
/// downloader already rolled it back), unless the rollback deletion itself
/// failed.
pub proof fn lemma_install_download_failure_no_cache(flow: InstallFlow)
    requires
        flow.inv(),
        flow.phase matches InstallPhase::Done { result: Err(e) } && !is_extraction_error(e) && !(
        e is Cleanup),
    ensures
        !flow.cache_present,
{
}

/// The downloader's outcome is always a fitting event for an installation
/// that waits on its download stage, and the two models agree: the cache
/// file the installation will record matches the file the downloader left.
pub proof fn lemma_download_feeds_install(dl: DownloadFlow, inst: InstallFlow)
    requires
        dl.inv(),
        inst.inv(),
        dl.phase matches DownloadPhase::Done { .. },
        inst.phase is Downloading,
    ensures
        dl.phase matches DownloadPhase::Done { result } ==> inst.accepts(
            InstallEvent::DownloadFinished(result),
        ),
        dl.phase matches DownloadPhase::Done { result: Err(e) } ==> ((dl.file@ is Some) <==> (
        e is Cleanup)),
{
    crate::download::lemma_download_error_kind(dl);
    crate::download::lemma_download_failure_file_iff_cleanup(dl);
}

} // verus!
