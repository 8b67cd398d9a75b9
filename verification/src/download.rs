use vstd::prelude::*;

use crate::errors::{is_download_error, Error};

verus! {

/// The concatenation of a sequence of chunks, in order.
pub open spec fn concat_of(chunks: Seq<Seq<u8>>) -> Seq<u8>
    decreases chunks.len(),
{
    if chunks.len() == 0 {
        Seq::<u8>::empty()
    } else {
        concat_of(chunks.drop_last()) + chunks.last()
    }
}

/// Where a download stands.
#[derive(Debug, PartialEq)]
pub enum DownloadPhase {
    /// The HTTP response is being requested.
    Fetching,
    /// The response is there; the file is being created.
    Creating,
    /// The file exists; the next chunk of the body is awaited.
    Streaming,
    /// A chunk is being appended to the file.
    Writing,
    /// A failure happened after the file was created; the file is deleted
    /// before the error is reported.
    Removing { error: Error },
    /// The download is over; nothing more will be asked of the driver.
    Done { result: Result<(), Error> },
}

/// What the driver observed while performing the last requested action.
#[derive(Debug, PartialEq)]
pub enum DownloadEvent {
    /// The HTTP response was obtained.
    FetchSucceeded,
    /// The HTTP response could not be obtained.
    FetchFailed,
    /// The file was created (truncated if it existed).
    CreateSucceeded,
    /// The file could not be created.
    CreateFailed,
    /// A chunk of the response body arrived.
    ChunkReceived(Vec<u8>),
    /// The body stream reported an error.
    ChunkFailed,
    /// The body stream ended.
    StreamEnded,
    /// The chunk was appended to the file.
    WriteSucceeded,
    /// The chunk could not be appended.
    WriteFailed,
    /// The file was deleted.
    RemoveSucceeded,
    /// The file could not be deleted.
    RemoveFailed,
}

/// What the driver must do next.
#[derive(Debug, PartialEq)]
pub enum DownloadAction {
    /// Create (truncate if present) the file at the download path.
    CreateFile,
    /// Await the next chunk of the response body.
    AwaitChunk,
    /// Append exactly these bytes to the file.
    Write(Vec<u8>),
    /// Delete the file at the download path.
    RemoveFile,
    /// Nothing is left to do; the result is in the `Done` phase.
    Finish,
}

/// The download protocol, one step per driver event, together with a model
/// of the file at the download path. The driver performs each returned
/// action against the real network and filesystem and reports what happened
/// as the next event.
pub struct DownloadFlow {
    pub phase: DownloadPhase,
    /// Whether the file was created during this download.
    pub created: bool,
    /// Model of the file at the download path: `None` when absent, otherwise
    /// its bytes.
    pub file: Ghost<Option<Seq<u8>>>,
    /// The chunks appended to the file so far, in arrival order.
    pub chunks: Ghost<Seq<Seq<u8>>>,
    /// The chunk currently being written.
    pub pending: Ghost<Seq<u8>>,
}

impl DownloadFlow {
    /// The protocol invariant: what holds of the file model in each phase.
    /// After a failure the file is gone, unless the rollback deletion itself
    /// failed, in which case a `Cleanup` error wrapping the original failure
    /// is reported and the partial file remains.
    pub open spec fn inv(self) -> bool {
        match self.phase {
            DownloadPhase::Fetching => !self.created && self.file@ is None && self.chunks@.len()
                == 0,
            DownloadPhase::Creating => !self.created && self.file@ is None && self.chunks@.len()
                == 0,
            DownloadPhase::Streaming => self.created && self.file@ == Some(concat_of(self.chunks@)),
            DownloadPhase::Writing => self.created && self.file@ == Some(concat_of(self.chunks@)),
            DownloadPhase::Removing { error } => self.created && self.file@ == Some(
                concat_of(self.chunks@),
            ) && (error == Error::StreamRead || error == Error::FileWrite),
            DownloadPhase::Done { result } => match result {
                Ok(_) => self.created && self.file@ == Some(concat_of(self.chunks@)),
                Err(e) => {
                    if self.created {
                        &&& (e is Cleanup) <==> (self.file@ is Some)
                        &&& e is Cleanup ==> self.file@ == Some(concat_of(self.chunks@))
                        &&& e matches Error::Cleanup(inner) ==> (inner matches Some(orig) && (*orig
                            == Error::StreamRead || *orig == Error::FileWrite))
                        &&& !(e is Cleanup) ==> (e == Error::StreamRead || e == Error::FileWrite)
                    } else {
                        self.file@ is None && (e == Error::Fetch || e == Error::FileCreate)
                    }
                },
            },
        }
    }

    /// The events the protocol can take in its current phase: exactly the
    /// outcomes of the action it last asked for.
    pub open spec fn accepts(self, event: DownloadEvent) -> bool {
        match self.phase {
            DownloadPhase::Fetching => event is FetchSucceeded || event is FetchFailed,
            DownloadPhase::Creating => event is CreateSucceeded || event is CreateFailed,
            DownloadPhase::Streaming => event is ChunkReceived || event is ChunkFailed
                || event is StreamEnded,
            DownloadPhase::Writing => event is WriteSucceeded || event is WriteFailed,
            DownloadPhase::Removing { .. } => event is RemoveSucceeded || event is RemoveFailed,
            DownloadPhase::Done { .. } => false,
        }
    }
}

/// The model fields a step does not touch.
pub open spec fn model_unchanged(pre: DownloadFlow, post: DownloadFlow) -> bool {
    &&& post.created == pre.created
    &&& post.file@ == pre.file@
    &&& post.chunks@ == pre.chunks@
}

/// The transition relation of the download protocol: how each event moves
/// the phase, the file model, and what the driver is asked to do next.
pub open spec fn download_step_spec(
    pre: DownloadFlow,
    event: DownloadEvent,
    post: DownloadFlow,
    action: DownloadAction,
) -> bool {
    match event {
        DownloadEvent::FetchSucceeded => post.phase is Creating && model_unchanged(pre, post)
            && action is CreateFile,
        DownloadEvent::FetchFailed => post.phase == (DownloadPhase::Done {
            result: Err(Error::Fetch),
        }) && model_unchanged(pre, post) && action is Finish,
        DownloadEvent::CreateSucceeded => post.phase is Streaming && post.created && post.file@
            == Some(Seq::<u8>::empty()) && post.chunks@ == Seq::<Seq<u8>>::empty()
            && action is AwaitChunk,
        DownloadEvent::CreateFailed => post.phase == (DownloadPhase::Done {
            result: Err(Error::FileCreate),
        }) && model_unchanged(pre, post) && action is Finish,
        DownloadEvent::ChunkReceived(v) => post.phase is Writing && model_unchanged(pre, post)
            && post.pending@ == v@ && action == DownloadAction::Write(v),
        DownloadEvent::ChunkFailed => post.phase == (DownloadPhase::Removing {
            error: Error::StreamRead,
        }) && model_unchanged(pre, post) && action is RemoveFile,
        DownloadEvent::StreamEnded => post.phase == (DownloadPhase::Done { result: Ok(()) })
            && model_unchanged(pre, post) && action is Finish,
        DownloadEvent::WriteSucceeded => post.phase is Streaming && post.created == pre.created
            && post.chunks@ == pre.chunks@.push(pre.pending@) && post.file@ == Some(
            concat_of(pre.chunks@) + pre.pending@,
        ) && action is AwaitChunk,
        DownloadEvent::WriteFailed => post.phase == (DownloadPhase::Removing {
            error: Error::FileWrite,
        }) && model_unchanged(pre, post) && action is RemoveFile,
        DownloadEvent::RemoveSucceeded => pre.phase matches DownloadPhase::Removing { error }
            && post.phase == (DownloadPhase::Done { result: Err(error) }) && post.created
            == pre.created && post.chunks@ == pre.chunks@ && post.file@ is None
            && action is Finish,
        DownloadEvent::RemoveFailed => pre.phase matches DownloadPhase::Removing { error } && (
        post.phase matches DownloadPhase::Done { result: Err(Error::Cleanup(Some(orig))) } && *orig
            == error) && model_unchanged(pre, post) && action is Finish,
    }
}

impl DownloadFlow {
    /// Starts a download: the driver's first duty is to request the HTTP
    /// response.
    pub fn begin() -> (flow: DownloadFlow)
        ensures
            flow.inv(),
            flow.phase is Fetching,
            !flow.created,
            flow.file@ is None,
            flow.chunks@ == Seq::<Seq<u8>>::empty(),
    {
        DownloadFlow {
            phase: DownloadPhase::Fetching,
            created: false,
            file: Ghost(None),
            chunks: Ghost(Seq::empty()),
            pending: Ghost(Seq::empty()),
        }
    }

    /// Takes one driver event and answers with the next action. A single
    /// failure is terminal: no stage retries, and any failure after the file
    /// was created first asks for its deletion.
    pub fn step(self, event: DownloadEvent) -> (r: (DownloadFlow, DownloadAction))
        requires
            self.inv(),
            self.accepts(event),
        ensures
            r.0.inv(),
            download_step_spec(self, event, r.0, r.1),
    {
        let ghost pre = self;
        let DownloadFlow { phase, created, file, chunks, pending } = self;
        match (phase, event) {
            (DownloadPhase::Fetching, DownloadEvent::FetchSucceeded) => (
                DownloadFlow { phase: DownloadPhase::Creating, created, file, chunks, pending },
                DownloadAction::CreateFile,
            ),
            (DownloadPhase::Fetching, DownloadEvent::FetchFailed) => (
                DownloadFlow {
                    phase: DownloadPhase::Done { result: Err(Error::Fetch) },
                    created,
                    file,
                    chunks,
                    pending,
                },
                DownloadAction::Finish,
            ),
            (DownloadPhase::Creating, DownloadEvent::CreateSucceeded) => (
                DownloadFlow {
                    phase: DownloadPhase::Streaming,
                    created: true,
                    file: Ghost(Some(Seq::empty())),
                    chunks: Ghost(Seq::empty()),
                    pending,
                },
                DownloadAction::AwaitChunk,
            ),
            (DownloadPhase::Creating, DownloadEvent::CreateFailed) => (
                DownloadFlow {
                    phase: DownloadPhase::Done { result: Err(Error::FileCreate) },
                    created,
                    file,
                    chunks,
                    pending,
                },
                DownloadAction::Finish,
            ),
            (DownloadPhase::Streaming, DownloadEvent::ChunkReceived(v)) => (
                DownloadFlow {
                    phase: DownloadPhase::Writing,
                    created,
                    file,
                    chunks,
                    pending: Ghost(v@),
                },
                DownloadAction::Write(v),
            ),
            (DownloadPhase::Streaming, DownloadEvent::ChunkFailed) => (
                DownloadFlow {
                    phase: DownloadPhase::Removing { error: Error::StreamRead },
                    created,
                    file,
                    chunks,
                    pending,
                },
                DownloadAction::RemoveFile,
            ),
            (DownloadPhase::Streaming, DownloadEvent::StreamEnded) => (
                DownloadFlow {
                    phase: DownloadPhase::Done { result: Ok(()) },
                    created,
                    file,
                    chunks,
                    pending,
                },
                DownloadAction::Finish,
            ),
            (DownloadPhase::Writing, DownloadEvent::WriteSucceeded) => {
                proof {
                    assert(pre.chunks@.push(pre.pending@).drop_last() =~= pre.chunks@);
                    assert(concat_of(pre.chunks@.push(pre.pending@)) == concat_of(pre.chunks@)
                        + pre.pending@);
                }
                (
                    DownloadFlow {
                        phase: DownloadPhase::Streaming,
                        created,
                        file: Ghost(Some(concat_of(pre.chunks@) + pre.pending@)),
                        chunks: Ghost(pre.chunks@.push(pre.pending@)),
                        pending,
                    },
                    DownloadAction::AwaitChunk,
                )
            },
            (DownloadPhase::Writing, DownloadEvent::WriteFailed) => (
                DownloadFlow {
                    phase: DownloadPhase::Removing { error: Error::FileWrite },
                    created,
                    file,
                    chunks,
                    pending,
                },
                DownloadAction::RemoveFile,
            ),
            (DownloadPhase::Removing { error }, DownloadEvent::RemoveSucceeded) => (
                DownloadFlow {
                    phase: DownloadPhase::Done { result: Err(error) },
                    created,
                    file: Ghost(None),
                    chunks,
                    pending,
                },
                DownloadAction::Finish,
            ),
            (DownloadPhase::Removing { error }, DownloadEvent::RemoveFailed) => (
                DownloadFlow {
                    phase: DownloadPhase::Done {
                        result: Err(Error::Cleanup(Some(Box::new(error)))),
                    },
                    created,
                    file,
                    chunks,
                    pending,
                },
                DownloadAction::Finish,
            ),
            // No other pairing satisfies `accepts`; this arm is never reached.
            (phase, _) => (
                DownloadFlow { phase, created, file, chunks, pending },
                DownloadAction::Finish,
            ),
        }
    }
}

/// Download integrity: a download that ended successfully produced a file
/// holding exactly the concatenation of the received chunks, in order, no
/// more and no less.
pub proof fn lemma_download_integrity(flow: DownloadFlow)
    requires
        flow.inv(),
        flow.phase matches DownloadPhase::Done { result: Ok(_) },
    ensures
        flow.created,
        flow.file@ == Some(concat_of(flow.chunks@)),
{
}

/// Chunk boundaries are irrelevant: two successful downloads whose chunks
/// concatenate to the same bytes leave files with the same contents.
pub proof fn lemma_integrity_ignores_chunking(a: DownloadFlow, b: DownloadFlow)
    requires
        a.inv(),
        b.inv(),
        a.phase matches DownloadPhase::Done { result: Ok(_) },
        b.phase matches DownloadPhase::Done { result: Ok(_) },
        concat_of(a.chunks@) == concat_of(b.chunks@),
    ensures
        a.file@ == b.file@,
{
}

/// Download rollback: a download that failed left no file behind, unless the
/// failure reported is the rollback deletion itself failing.
pub proof fn lemma_download_rollback(flow: DownloadFlow)
    requires
        flow.inv(),
        flow.phase matches DownloadPhase::Done { result: Err(e) } && !(e is Cleanup),
    ensures
        flow.file@ is None,
{
}

/// A failed download reports a download-stage error, never an
/// extraction-stage one.
pub proof fn lemma_download_error_kind(flow: DownloadFlow)
    requires
        flow.inv(),
    ensures
        flow.phase matches DownloadPhase::Done { result: Err(e) } ==> is_download_error(e),
{
}

/// After a failed download the file remains on disk exactly when the
/// reported error is the cleanup failure.
pub proof fn lemma_download_failure_file_iff_cleanup(flow: DownloadFlow)
    requires
        flow.inv(),
    ensures
        flow.phase matches DownloadPhase::Done { result: Err(e) } ==> ((flow.file@ is Some) <==> (
        e is Cleanup)),
{
}

} // verus!
